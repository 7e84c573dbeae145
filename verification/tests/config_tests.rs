use chess_clock::chess_clock::ChessClock;
use chess_clock::config::ChessClockConfig;
use chess_clock::descriptor::Player;

fn record(bytes: [u8; 16]) -> ChessClockConfig {
    ChessClockConfig::new(Some(bytes))
}

#[test]
fn blank_record_decodes_to_zero_settings() {
    let cfg = ChessClockConfig::new(None);
    assert_eq!(cfg.duration_millis(Player::A), 0);
    assert_eq!(cfg.duration_millis(Player::B), 0);
    assert_eq!(cfg.increment_millis(Player::A), 0);
    assert_eq!(cfg.delay_millis(Player::B), 0);
    assert_eq!(cfg.beep_tone(), 0);
    assert_eq!(cfg.beep_volume(), 0);
}

#[test]
fn duration_is_big_endian_seconds() {
    // 0x012c seconds == 300 s for player A, 0x0e10 == 3600 s for player B
    let cfg = record([0x01, 0x2c, 0x0e, 0x10, 0, 0, 0, 0, 0, 0, 0, 0, 0, 0, 0, 0]);
    assert_eq!(cfg.duration_millis(Player::A), 300_000);
    assert_eq!(cfg.duration_millis(Player::B), 3_600_000);
}

#[test]
fn increments_and_delays_are_per_player_bytes() {
    let cfg = record([0, 0, 0, 0, 2, 3, 4, 5, 0, 0, 0, 0, 0, 0, 0, 0]);
    assert_eq!(cfg.increment_millis(Player::A), 2_000);
    assert_eq!(cfg.increment_millis(Player::B), 3_000);
    assert_eq!(cfg.delay_millis(Player::A), 4_000);
    assert_eq!(cfg.delay_millis(Player::B), 5_000);
}

#[test]
fn beep_byte_packs_tone_high_and_volume_low() {
    let cfg = record([0, 0, 0, 0, 0, 0, 0, 0, 0b0101_0011, 0, 0, 0, 0, 0, 0, 0]);
    assert_eq!(cfg.beep_tone(), 5);
    assert_eq!(cfg.beep_volume(), 3);
}

#[test]
fn beep_tone_keeps_all_three_bits() {
    // tone 4 lives in bit 6: it must survive decoding
    let cfg = record([0, 0, 0, 0, 0, 0, 0, 0, 0b0100_0000, 0, 0, 0, 0, 0, 0, 0]);
    assert_eq!(cfg.beep_tone(), 4);
    assert_eq!(cfg.beep_volume(), 0);
}

#[test]
fn beep_byte_reserved_bits_are_ignored() {
    let cfg = record([0, 0, 0, 0, 0, 0, 0, 0, 0b1010_1001, 0, 0, 0, 0, 0, 0, 0]);
    assert_eq!(cfg.beep_tone(), 2);
    assert_eq!(cfg.beep_volume(), 1);
}

#[test]
fn encode_decode_round_trip_preserves_settings() {
    let original = [0x01, 0x2c, 0xff, 0xff, 2, 255, 0, 30, 0b0101_0011, 0, 0, 0, 0, 0, 0, 0];
    let clock = ChessClock::new(Some(record(original)));
    let encoded = ChessClockConfig::from_clock(&clock);
    assert_eq!(encoded.data, original);
}

#[test]
fn encode_truncates_to_whole_seconds() {
    let mut clock = ChessClock::new(None);
    clock.timer_a.duration_millis = 90_500;
    clock.increment_b = 2_999;
    let encoded = ChessClockConfig::from_clock(&clock);
    assert_eq!(encoded.duration_millis(Player::A), 90_000);
    assert_eq!(encoded.increment_millis(Player::B), 2_000);
}

#[test]
fn encode_zeroes_reserved_bytes() {
    let clock = ChessClock::new(Some(record([0xff; 16])));
    let encoded = ChessClockConfig::from_clock(&clock);
    for i in 9..16 {
        assert_eq!(encoded.data[i], 0);
    }
}
