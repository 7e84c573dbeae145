//! Shared vocabulary of the clock core: player identity, the mode of the
//! state machine, display digit positions, the packed four-digit display
//! value, the observable effect of an input action, and an audible cue.

use vstd::prelude::*;
use crate::code_b::Character;

verus! {

/// One of the two players. No third value is ever valid.
#[derive(Clone, Copy, PartialEq, Eq, Structural, Debug)]
pub enum Player {
    A,
    B,
}

impl Player {
    /// The other player; a total, invertible mapping.
    pub fn opponent(&self) -> (r: Player)
        ensures
            r == self.spec_opponent(),
    {
        match self {
            Player::A => Player::B,
            Player::B => Player::A,
        }
    }

    pub open spec fn spec_opponent(self) -> Player {
        match self {
            Player::A => Player::B,
            Player::B => Player::A,
        }
    }

    /// Index of the opponent into any two-element per-player array.
    pub fn opponent_idx(&self) -> (r: usize)
        ensures
            r == self.spec_opponent().spec_idx(),
    {
        match self {
            Player::A => 1,
            Player::B => 0,
        }
    }

    /// Index of this player into any two-element per-player array.
    pub fn own_idx(&self) -> (r: usize)
        ensures
            r == self.spec_idx(),
    {
        match self {
            Player::A => 0,
            Player::B => 1,
        }
    }

    pub open spec fn spec_idx(self) -> usize {
        match self {
            Player::A => 0usize,
            Player::B => 1usize,
        }
    }
}

/// The active mode of the clock state machine. `Play` is the initial mode;
/// the `Set...` modes form the edit cascade reached from `Play` by a
/// long press of the control switch, in the order they are declared.
#[derive(Clone, Copy, PartialEq, Eq, Structural, Debug)]
pub enum ClockMode {
    Play,
    SetDecaminute,
    SetMinute,
    SetDecasecond,
    SetSecond,
    SetDecasecondInterval,
    SetSecondInterval,
    SetBeepTone,
    SetBeepVolume,
}

/// One of the four display positions, most significant first.
#[derive(Clone, Copy, PartialEq, Eq, Structural, Debug)]
pub enum DigitPosition {
    Decaminute,
    Minute,
    Decasecond,
    Second,
}

/// The effect an external action (usually a button press) had on the clock.
#[derive(Clone, Copy, PartialEq, Eq, Structural, Debug)]
pub enum ChessClockBehavior {
    ChangeMode,
    CycleProfile,
    EditTime,
    Pause,
    Reset,
    Resume,
    ToggleTurn,
}

/// A one-shot request for an audible cue, scheduled by the state machine and
/// consumed by the audio collaborator.
#[derive(Clone, Copy, PartialEq, Eq, Structural, Debug)]
pub struct Beep {
    /// Pitch class, 0 through 5.
    pub tone: u8,
    /// Loudness class, 0 through 3; 0 means no audible effect.
    pub volume: u8,
}

/// Four display codes packed in one word, 4 bits per position:
/// decaminutes in the highest nibble down to seconds in the lowest.
#[derive(Clone, Copy, PartialEq, Eq, Structural, Debug)]
pub struct DigitQuartet(pub u16);

/// Bit offset of a display position inside the packed word.
pub open spec fn spec_position_shift(digit_position: DigitPosition) -> u16 {
    match digit_position {
        DigitPosition::Decaminute => 12u16,
        DigitPosition::Minute => 8u16,
        DigitPosition::Decasecond => 4u16,
        DigitPosition::Second => 0u16,
    }
}

fn digit_quartet_position_index(digit_position: DigitPosition) -> (r: u16)
    ensures
        r == spec_position_shift(digit_position),
{
    match digit_position {
        DigitPosition::Decaminute => 12,
        DigitPosition::Minute => 8,
        DigitPosition::Decasecond => 4,
        DigitPosition::Second => 0,
    }
}

impl DigitQuartet {
    /// The code held at one position: the 4 bits at that position's offset.
    pub open spec fn spec_get(self, digit_position: DigitPosition) -> u8 {
        ((self.0 >> spec_position_shift(digit_position)) & 0x0f) as u8
    }

    /// Create four blank digits.
    pub fn new() -> (r: DigitQuartet)
        ensures
            forall|p: DigitPosition| r.spec_get(p) == crate::code_b::BLANK,
    {
        let r = DigitQuartet(0b1111_1111_1111_1111);
        proof {
            assert forall|p: DigitPosition| r.spec_get(p) == crate::code_b::BLANK by {
                let sh = spec_position_shift(p);
                assert((0b1111_1111_1111_1111u16 >> sh) & 0x0f == 0x0f) by (bit_vector)
                    requires
                        sh == 12u16 || sh == 8u16 || sh == 4u16 || sh == 0u16,
                ;
            }
        }
        r
    }

    /// Read the code at one position.
    pub fn get(self, digit_position: DigitPosition) -> (r: u8)
        ensures
            r == self.spec_get(digit_position),
    {
        let r = (self.0 >> digit_quartet_position_index(digit_position)) as u8 & 0b0000_1111;
        proof {
            let w = self.0;
            let sh = spec_position_shift(digit_position);
            assert((w >> sh) as u8 & 0b0000_1111 == ((w >> sh) & 0x0f) as u8) by (bit_vector);
        }
        r
    }

    /// Replace the code at one position, leaving the other three unchanged.
    /// Only the low 4 bits of `character` are stored.
    pub fn set(&mut self, digit_position: DigitPosition, character: Character)
        ensures
            final(self).spec_get(digit_position) == character & 0x0f,
            forall|p: DigitPosition| p != digit_position
                ==> final(self).spec_get(p) == old(self).spec_get(p),
    {
        let digit_idx = digit_quartet_position_index(digit_position);
        let ghost pre = self.0;
        // clear the old 4 bits, then set the new 4 bits in their place
        self.0 = (self.0 & !(0b0000_0000_0000_1111u16 << digit_idx))
            | (((character & 0b0000_1111) as u16) << digit_idx);
        proof {
            let sh = spec_position_shift(digit_position);
            let post = self.0;
            assert(((post >> sh) & 0x0f) as u8 == character & 0x0f) by (bit_vector)
                requires
                    (sh == 12u16 || sh == 8u16 || sh == 4u16 || sh == 0u16)
                        && post == ((pre & !(0b0000_0000_0000_1111u16 << sh))
                            | (((character & 0b0000_1111) as u16) << sh)),
            ;
            assert forall|p: DigitPosition| p != digit_position
                implies ((post >> spec_position_shift(p)) & 0x0f)
                    == ((pre >> spec_position_shift(p)) & 0x0f) by {
                let so = spec_position_shift(p);
                assert((post >> so) & 0x0f == (pre >> so) & 0x0f) by (bit_vector)
                    requires
                        (sh == 12u16 || sh == 8u16 || sh == 4u16 || sh == 0u16)
                            && (so == 12u16 || so == 8u16 || so == 4u16 || so == 0u16)
                            && so != sh
                            && post == ((pre & !(0b0000_0000_0000_1111u16 << sh))
                                | (((character & 0b0000_1111) as u16) << sh)),
                ;
            }
        }
    }
}

} // verus!
