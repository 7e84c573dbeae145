//! Digit codec: a millisecond duration becomes four positional display
//! codes (ten-minutes, minutes, ten-seconds, seconds) by a mixed-radix
//! (6, 10, 10, 10) decomposition done with repeated subtraction, without
//! division at run time.

use vstd::prelude::*;
use vstd::arithmetic::div_mod::{
    lemma_div_by_multiple,
    lemma_div_is_ordered,
    lemma_fundamental_div_mod,
    lemma_fundamental_div_mod_converse,
};
use crate::descriptor::{DigitPosition, DigitQuartet};

verus! {

/// Milliseconds in ten minutes, one minute, ten seconds, one second.
pub const DECAMINUTE_MILLIS: u32 = 600_000;

pub const MINUTE_MILLIS: u32 = 60_000;

pub const DECASECOND_MILLIS: u32 = 10_000;

pub const SECOND_MILLIS: u32 = 1_000;

/// How often `ms` contains `unit`, capped at 9: the value of one display
/// position. The cap bounds the decomposition loop at nine subtractions per
/// position, so a corrupt, too-large input cannot run it away.
pub open spec fn spec_digit_of(ms: nat, unit: nat) -> nat
    recommends
        unit >= 1,
{
    if ms / unit <= 9 {
        ms / unit
    } else {
        9nat
    }
}

/// What is left of `ms` after its digit's worth of `unit` is removed.
pub open spec fn spec_rem_of(ms: nat, unit: nat) -> nat
    recommends
        unit >= 1,
{
    (ms - spec_digit_of(ms, unit) * unit) as nat
}

/// The four position values of a millisecond count, most significant first.
pub open spec fn spec_decaminute_digit(ms: nat) -> nat {
    spec_digit_of(ms, DECAMINUTE_MILLIS as nat)
}

pub open spec fn spec_minute_digit(ms: nat) -> nat {
    spec_digit_of(spec_rem_of(ms, DECAMINUTE_MILLIS as nat), MINUTE_MILLIS as nat)
}

pub open spec fn spec_minute_rem(ms: nat) -> nat {
    spec_rem_of(spec_rem_of(ms, DECAMINUTE_MILLIS as nat), MINUTE_MILLIS as nat)
}

pub open spec fn spec_decasecond_digit(ms: nat) -> nat {
    spec_digit_of(spec_minute_rem(ms), DECASECOND_MILLIS as nat)
}

pub open spec fn spec_second_digit(ms: nat) -> nat {
    spec_digit_of(spec_rem_of(spec_minute_rem(ms), DECASECOND_MILLIS as nat), SECOND_MILLIS as nat)
}

/// Count how often `unit` fits into `ms` by repeated subtraction, stopping
/// at nine; returns the count and what is left.
fn extract_digit(ms: u32, unit: u32) -> (r: (u8, u32))
    requires
        unit >= 1,
    ensures
        r.0 as nat == spec_digit_of(ms as nat, unit as nat),
        r.1 as nat == spec_rem_of(ms as nat, unit as nat),
        r.0 <= 9,
{
    let mut digit: u8 = 0;
    let mut rem: u32 = ms;
    while rem >= unit && digit < 9
        invariant
            unit >= 1,
            digit <= 9,
            rem == ms - digit * unit,
            digit * unit <= ms,
        decreases rem,
    {
        proof {
            assert((digit + 1) * unit == digit * unit + unit) by (nonlinear_arith);
        }
        digit = digit + 1;
        rem = rem - unit;
    }
    proof {
        let m = ms as int;
        let u = unit as int;
        let d = digit as int;
        if digit == 9 {
            // nine whole units were removed, so the true quotient is at
            // least nine and the capped digit is exactly nine
            lemma_div_by_multiple(9int, u);
            lemma_div_is_ordered(9 * u, m, u);
            assert(m / u >= 9);
        } else {
            // the loop stopped because less than one unit is left
            lemma_fundamental_div_mod_converse(m, u, d, rem as int);
            assert(m / u == d);
        }
    }
    (digit, rem)
}

/// Decompose a millisecond count into the four display positions.
///
/// Each position holds the mixed-radix digit of the remaining time, capped
/// at 9; for inputs below one hundred minutes the four values are exactly
/// the ten-minute, minute, ten-second and second digits of the duration.
pub fn milliseconds_to_digits(ms: u32) -> (r: DigitQuartet)
    ensures
        r.spec_get(DigitPosition::Decaminute) == spec_decaminute_digit(ms as nat),
        r.spec_get(DigitPosition::Minute) == spec_minute_digit(ms as nat),
        r.spec_get(DigitPosition::Decasecond) == spec_decasecond_digit(ms as nat),
        r.spec_get(DigitPosition::Second) == spec_second_digit(ms as nat),
{
    let (decaminutes, rem1) = extract_digit(ms, DECAMINUTE_MILLIS);
    let (minutes, rem2) = extract_digit(rem1, MINUTE_MILLIS);
    let (decaseconds, rem3) = extract_digit(rem2, DECASECOND_MILLIS);
    let (seconds, _) = extract_digit(rem3, SECOND_MILLIS);
    let mut digits = DigitQuartet::new();
    digits.set(DigitPosition::Decaminute, decaminutes);
    digits.set(DigitPosition::Minute, minutes);
    digits.set(DigitPosition::Decasecond, decaseconds);
    digits.set(DigitPosition::Second, seconds);
    proof {
        lemma_low_nibble_identity(decaminutes);
        lemma_low_nibble_identity(minutes);
        lemma_low_nibble_identity(decaseconds);
        lemma_low_nibble_identity(seconds);
    }
    digits
}

/// Masking to the low nibble keeps a value that already fits in it.
pub proof fn lemma_low_nibble_identity(c: u8)
    requires
        c <= 15,
    ensures
        c & 0x0f == c,
{
    assert(c & 0x0f == c) by (bit_vector)
        requires
            c <= 15,
    ;
}

/// The decomposition round-trips: for durations up to one hundred minutes,
/// scaling the four digits back up recovers the input to second precision
/// (what is lost is exactly the sub-second part).
pub proof fn lemma_digits_round_trip(ms: u32)
    requires
        ms <= 5_999_999,
    ensures
        600_000 * spec_decaminute_digit(ms as nat) + 60_000 * spec_minute_digit(ms as nat)
            + 10_000 * spec_decasecond_digit(ms as nat) + 1_000 * spec_second_digit(ms as nat)
            == ms - ms % 1000,
{
    let m = ms as int;
    let d1 = spec_decaminute_digit(ms as nat);
    lemma_div_is_ordered(m, 5_999_999int, 600_000int);
    assert(d1 == m / 600_000);
    let r1 = spec_rem_of(ms as nat, DECAMINUTE_MILLIS as nat);
    lemma_fundamental_div_mod(m, 600_000int);
    assert(r1 == m % 600_000);
    assert(r1 < 600_000);

    let d2 = spec_minute_digit(ms as nat);
    lemma_div_is_ordered(r1 as int, 599_999int, 60_000int);
    assert(d2 == r1 as int / 60_000);
    let r2 = spec_minute_rem(ms as nat);
    lemma_fundamental_div_mod(r1 as int, 60_000int);
    assert(r2 == r1 as int % 60_000);
    assert(r2 < 60_000);

    let d3 = spec_decasecond_digit(ms as nat);
    lemma_div_is_ordered(r2 as int, 59_999int, 10_000int);
    assert(d3 == r2 as int / 10_000);
    let r3 = spec_rem_of(spec_minute_rem(ms as nat), DECASECOND_MILLIS as nat);
    lemma_fundamental_div_mod(r2 as int, 10_000int);
    assert(r3 == r2 as int % 10_000);
    assert(r3 < 10_000);

    let d4 = spec_second_digit(ms as nat);
    lemma_div_is_ordered(r3 as int, 9_999int, 1_000int);
    assert(d4 == r3 as int / 1_000);
    let r4 = r3 as int % 1_000;
    lemma_fundamental_div_mod(r3 as int, 1_000int);

    // the four digits and the sub-second rest reassemble the input
    assert(m == 1_000 * (600 * d1 + 60 * d2 + 10 * d3 + d4) + r4);
    lemma_fundamental_div_mod_converse(m, 1_000int, 600 * d1 + 60 * d2 + 10 * d3 + d4 as int, r4);
    assert(r4 == m % 1_000);
}

} // verus!
