use chess_clock::code_b;
use chess_clock::descriptor::{DigitPosition, DigitQuartet};
use chess_clock::digits::milliseconds_to_digits;

fn codes(d: DigitQuartet) -> [u8; 4] {
    [
        d.get(DigitPosition::Decaminute),
        d.get(DigitPosition::Minute),
        d.get(DigitPosition::Decasecond),
        d.get(DigitPosition::Second),
    ]
}

#[test]
fn quartet_starts_blank() {
    let d = DigitQuartet::new();
    assert_eq!(codes(d), [code_b::BLANK; 4]);
}

#[test]
fn quartet_set_replaces_one_position_only() {
    let mut d = DigitQuartet::new();
    d.set(DigitPosition::Minute, 7);
    assert_eq!(codes(d), [code_b::BLANK, 7, code_b::BLANK, code_b::BLANK]);
    d.set(DigitPosition::Second, 3);
    assert_eq!(codes(d), [code_b::BLANK, 7, code_b::BLANK, 3]);
    d.set(DigitPosition::Minute, 0);
    assert_eq!(codes(d), [code_b::BLANK, 0, code_b::BLANK, 3]);
}

#[test]
fn quartet_set_keeps_low_nibble_only() {
    let mut d = DigitQuartet::new();
    d.set(DigitPosition::Decasecond, 0xf5);
    assert_eq!(d.get(DigitPosition::Decasecond), 5);
    assert_eq!(d.get(DigitPosition::Second), code_b::BLANK);
}

#[test]
fn zero_decomposes_to_zeros() {
    assert_eq!(codes(milliseconds_to_digits(0)), [0, 0, 0, 0]);
}

#[test]
fn one_minute_one_second() {
    assert_eq!(codes(milliseconds_to_digits(61_000)), [0, 1, 0, 1]);
}

#[test]
fn largest_displayable_value() {
    // 99 minutes 59.999 seconds
    assert_eq!(codes(milliseconds_to_digits(5_999_999)), [9, 9, 5, 9]);
}

#[test]
fn sub_second_part_is_dropped() {
    assert_eq!(codes(milliseconds_to_digits(1_999)), [0, 0, 0, 1]);
}

#[test]
fn mixed_radix_carries() {
    // 17 minutes 45 seconds
    assert_eq!(codes(milliseconds_to_digits(1_065_000)), [1, 7, 4, 5]);
}

#[test]
fn round_trip_reconstructs_to_second_precision() {
    for &ms in [0u32, 999, 1_000, 59_999, 60_000, 305_200, 599_999, 3_599_999, 5_999_999].iter() {
        let [tm, m, ts, s] = codes(milliseconds_to_digits(ms));
        let rebuilt =
            600_000 * tm as u32 + 60_000 * m as u32 + 10_000 * ts as u32 + 1_000 * s as u32;
        assert_eq!(rebuilt, ms - ms % 1_000);
    }
}

#[test]
fn oversized_input_caps_each_digit_at_nine() {
    // beyond the display range every position saturates at 9
    let d = milliseconds_to_digits(u32::MAX);
    assert_eq!(codes(d), [9, 9, 9, 9]);
}
