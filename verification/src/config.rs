//! Binary configuration record: the persistable clock settings packed into
//! a fixed 16-byte block.
//!
//! Layout: bytes 0-1 and 2-3 hold each player's total duration in seconds,
//! big-endian; bytes 4-5 the per-player increment seconds; bytes 6-7 the
//! per-player delay seconds; byte 8 packs the beep tone (bits 6:4) and the
//! beep volume (bits 2:0); bytes 9-15 are reserved and zero. Encoding and
//! decoding are pure and total; reserved bits are ignored on decode.

use vstd::prelude::*;
use crate::chess_clock::ChessClock;
use crate::descriptor::Player;

verus! {

/// Number of bytes in one persisted record slot.
pub const CONFIG_RECORD_BYTES: usize = 16;

/// The bytes of a record holding the given settings, each value reduced to
/// the range its field can carry.
pub open spec fn spec_config_bytes(
    duration_a_s: nat,
    duration_b_s: nat,
    increment_a_s: nat,
    increment_b_s: nat,
    delay_a_s: nat,
    delay_b_s: nat,
    beep_tone: nat,
    beep_volume: nat,
) -> Seq<u8> {
    seq![
        ((duration_a_s / 256) % 256) as u8,
        (duration_a_s % 256) as u8,
        ((duration_b_s / 256) % 256) as u8,
        (duration_b_s % 256) as u8,
        (increment_a_s % 256) as u8,
        (increment_b_s % 256) as u8,
        (delay_a_s % 256) as u8,
        (delay_b_s % 256) as u8,
        ((beep_volume % 8) + (beep_tone % 8) * 16) as u8,
        0u8,
        0u8,
        0u8,
        0u8,
        0u8,
        0u8,
        0u8,
    ]
}

/// A player's total duration in seconds, as decoded from record bytes.
pub open spec fn spec_duration_seconds(bytes: Seq<u8>, player: Player) -> nat
    recommends
        bytes.len() == 16,
{
    (bytes[2 * player.spec_idx() as int] as nat) * 256 + (
    bytes[2 * player.spec_idx() + 1] as nat)
}

/// A player's increment in seconds, as decoded from record bytes.
pub open spec fn spec_increment_seconds(bytes: Seq<u8>, player: Player) -> nat
    recommends
        bytes.len() == 16,
{
    bytes[4 + player.spec_idx() as int] as nat
}

/// A player's delay in seconds, as decoded from record bytes.
pub open spec fn spec_delay_seconds(bytes: Seq<u8>, player: Player) -> nat
    recommends
        bytes.len() == 16,
{
    bytes[6 + player.spec_idx() as int] as nat
}

/// The beep tone held in bits 6:4 of byte 8.
pub open spec fn spec_beep_tone(bytes: Seq<u8>) -> nat
    recommends
        bytes.len() == 16,
{
    ((bytes[8] as nat) / 16) % 8
}

/// The beep volume held in bits 2:0 of byte 8.
pub open spec fn spec_beep_volume(bytes: Seq<u8>) -> nat
    recommends
        bytes.len() == 16,
{
    (bytes[8] as nat) % 8
}

/// A clock configuration record: 16 bytes, as read from or written to one
/// slot of the non-volatile store.
#[derive(Clone, Copy, PartialEq, Eq, Debug)]
pub struct ChessClockConfig {
    pub data: [u8; 16],
}

impl ChessClockConfig {
    /// Create a record from raw stored bytes; `None` gives the blank
    /// (all-zero) record. Reading the store itself is the persistence
    /// collaborator's business.
    pub fn new(data: Option<[u8; 16]>) -> (r: ChessClockConfig)
        ensures
            (match data {
                Option::Some(d) => r.data@ == d@,
                Option::None => r.data@ == Seq::new(16nat, |i: int| 0u8),
            }),
    {
        match data {
            Option::Some(d) => ChessClockConfig { data: d },
            Option::None => {
                let r = ChessClockConfig { data: [0u8;16] };
                proof {
                    assert(r.data@ =~= Seq::new(16nat, |i: int| 0u8));
                }
                r
            },
        }
    }

    /// Encode a clock's current settings as a fresh record: durations and
    /// increments and delays in whole seconds (milliseconds truncated),
    /// beep tone and volume packed into byte 8, reserved bytes zero.
    pub fn from_clock(clock: &ChessClock) -> (r: ChessClockConfig)
        ensures
            r.data@ == spec_config_bytes(
                (clock.timer_a.duration_millis / 1000) as nat,
                (clock.timer_b.duration_millis / 1000) as nat,
                (clock.increment_a / 1000) as nat,
                (clock.increment_b / 1000) as nat,
                (clock.delay_a / 1000) as nat,
                (clock.delay_b / 1000) as nat,
                clock.beep_tone as nat,
                clock.beep_volume as nat,
            ),
    {
        let mut data = [0u8;16];
        let duration_a = clock.timer_a.duration_millis / 1000;
        let duration_b = clock.timer_b.duration_millis / 1000;
        data[0] = ((duration_a >> 8) & 0xff) as u8;
        data[1] = (duration_a & 0xff) as u8;
        data[2] = ((duration_b >> 8) & 0xff) as u8;
        data[3] = (duration_b & 0xff) as u8;
        data[4] = (clock.increment_a / 1000 % 256) as u8;
        data[5] = (clock.increment_b / 1000 % 256) as u8;
        data[6] = (clock.delay_a / 1000 % 256) as u8;
        data[7] = (clock.delay_b / 1000 % 256) as u8;
        data[8] = (clock.beep_volume & 0b0000_0111) | ((clock.beep_tone & 0b0000_0111) << 4);
        let r = ChessClockConfig { data };
        proof {
            let da = duration_a;
            let db = duration_b;
            assert(((da >> 8) & 0xff) as u8 == ((da / 256) % 256) as u8 && (da & 0xff) as u8 == (
            da % 256) as u8) by (bit_vector);
            assert(((db >> 8) & 0xff) as u8 == ((db / 256) % 256) as u8 && (db & 0xff) as u8 == (
            db % 256) as u8) by (bit_vector);
            let tone = clock.beep_tone;
            let vol = clock.beep_volume;
            assert((vol & 0b0000_0111) | ((tone & 0b0000_0111) << 4) == ((vol as nat % 8) + (
            tone as nat % 8) * 16) as u8) by (bit_vector);
            assert(r.data@ =~= spec_config_bytes(
                (clock.timer_a.duration_millis / 1000) as nat,
                (clock.timer_b.duration_millis / 1000) as nat,
                (clock.increment_a / 1000) as nat,
                (clock.increment_b / 1000) as nat,
                (clock.delay_a / 1000) as nat,
                (clock.delay_b / 1000) as nat,
                clock.beep_tone as nat,
                clock.beep_volume as nat,
            ));
        }
        r
    }

    /// The beep tone, 0 through 7 as stored; bits 7 and 3 of byte 8 are
    /// ignored.
    pub fn beep_tone(&self) -> (r: u8)
        ensures
            r as nat == spec_beep_tone(self.data@),
            r <= 7,
    {
        let b = self.data[8];
        let r = (b >> 4) & 0b0000_0111;
        proof {
            assert((b >> 4) & 0b0000_0111 == (((b as nat) / 16) % 8) as u8 && (b >> 4)
                & 0b0000_0111 <= 7) by (bit_vector);
        }
        r
    }

    /// The beep volume, 0 through 7 as stored.
    pub fn beep_volume(&self) -> (r: u8)
        ensures
            r as nat == spec_beep_volume(self.data@),
            r <= 7,
    {
        let b = self.data[8];
        let r = (b << 5) >> 5;
        proof {
            assert((b << 5) >> 5 == ((b as nat) % 8) as u8 && (b << 5) >> 5 <= 7) by (bit_vector);
        }
        r
    }

    /// A player's delay, in milliseconds.
    pub fn delay_millis(&self, player: Player) -> (r: u32)
        ensures
            r as nat == spec_delay_seconds(self.data@, player) * 1000,
    {
        (self.data[6 + player.own_idx()] as u32) * 1000
    }

    /// A player's total duration, in milliseconds.
    pub fn duration_millis(&self, player: Player) -> (r: u32)
        ensures
            r as nat == spec_duration_seconds(self.data@, player) * 1000,
    {
        let high_byte_offset = player.own_idx() * 2;
        let seconds = ((self.data[high_byte_offset] as u32) << 8) | (self.data[high_byte_offset
            + 1] as u32);
        proof {
            let hi = self.data[2 * player.spec_idx() as int];
            let lo = self.data[2 * player.spec_idx() + 1];
            assert(((hi as u32) << 8) | (lo as u32) == (hi as nat) * 256 + (lo as nat)) by (
            bit_vector);
        }
        seconds * 1000
    }

    /// A player's increment, in milliseconds.
    pub fn increment_millis(&self, player: Player) -> (r: u32)
        ensures
            r as nat == spec_increment_seconds(self.data@, player) * 1000,
    {
        (self.data[4 + player.own_idx()] as u32) * 1000
    }
}

/// Encoding then decoding gives the settings back: for any settings within
/// the ranges the record can carry (durations up to 65535 seconds,
/// increments and delays up to 255 seconds, tone up to 5, volume up to 3),
/// every decoded field of the encoded record equals the field encoded.
pub proof fn lemma_config_round_trip(
    duration_a_s: u16,
    duration_b_s: u16,
    increment_a_s: u8,
    increment_b_s: u8,
    delay_a_s: u8,
    delay_b_s: u8,
    beep_tone: u8,
    beep_volume: u8,
)
    requires
        beep_tone <= 5,
        beep_volume <= 3,
    ensures
        ({
            let bytes = spec_config_bytes(
                duration_a_s as nat,
                duration_b_s as nat,
                increment_a_s as nat,
                increment_b_s as nat,
                delay_a_s as nat,
                delay_b_s as nat,
                beep_tone as nat,
                beep_volume as nat,
            );
            spec_duration_seconds(bytes, Player::A) == duration_a_s && spec_duration_seconds(
                bytes,
                Player::B,
            ) == duration_b_s && spec_increment_seconds(bytes, Player::A) == increment_a_s
                && spec_increment_seconds(bytes, Player::B) == increment_b_s && spec_delay_seconds(
                bytes,
                Player::A,
            ) == delay_a_s && spec_delay_seconds(bytes, Player::B) == delay_b_s && spec_beep_tone(
                bytes,
            ) == beep_tone && spec_beep_volume(bytes) == beep_volume
        }),
{
}

} // verus!
