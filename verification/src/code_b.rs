//! Display codes for one character position of the multiplexed display.
//!
//! The low 4 bits select the glyph: the BCD digits 0 through 9, then a small
//! fixed alphabet used to spell short configuration words.

use vstd::prelude::*;

verus! {

/// One display code; only the low 4 bits are significant.
pub type Character = u8;

pub const ZERO: Character = 0b0000_0000;
pub const ONE: Character = 0b0000_0001;
pub const TWO: Character = 0b0000_0010;
pub const THREE: Character = 0b0000_0011;
pub const FOUR: Character = 0b0000_0100;
pub const FIVE: Character = 0b0000_0101;
pub const SIX: Character = 0b0000_0110;
pub const SEVEN: Character = 0b0000_0111;
pub const EIGHT: Character = 0b0000_1000;
pub const NINE: Character = 0b0000_1001;
pub const DASH: Character = 0b0000_1010;
pub const E: Character = 0b0000_1011;
pub const H: Character = 0b0000_1100;
pub const L: Character = 0b0000_1101;
pub const P: Character = 0b0000_1110;
pub const BLANK: Character = 0b0000_1111;

} // verus!
