use chess_clock::chess_clock::{ChessClock, TICK_INTERVAL_MILLIS};
use chess_clock::code_b;
use chess_clock::config::ChessClockConfig;
use chess_clock::descriptor::{ChessClockBehavior, ClockMode, DigitPosition, Player};

/// A clock with both timers at 300000 ms, increments 2 s, tone 1, volume 2.
fn five_minute_clock() -> ChessClock {
    let cfg = ChessClockConfig::new(Some([
        0x01, 0x2c, 0x01, 0x2c, 2, 2, 0, 0, 0b0001_0010, 0, 0, 0, 0, 0, 0, 0,
    ]));
    ChessClock::new(Some(cfg))
}

#[test]
fn new_clock_starts_paused_in_play_mode() {
    let c = five_minute_clock();
    assert_eq!(c.mode, ClockMode::Play);
    assert_eq!(c.active_player(), None);
    assert!(!c.timer_a.is_running);
    assert!(!c.timer_b.is_running);
    assert_eq!(c.timer_a.remaining(), 300_000);
    assert_eq!(c.timer_b.remaining(), 300_000);
    assert_eq!(c.timer_a.tick_interval_millis, TICK_INTERVAL_MILLIS);
}

#[test]
fn resume_then_toggle_turn() {
    let mut c = five_minute_clock();
    // paused: player A's press resumes onto the opponent
    let r = c.register_action(Some(Player::A), false);
    assert_eq!(r, Some(ChessClockBehavior::Resume));
    assert_eq!(c.active_player(), Some(Player::B));
    assert!(c.timer_b.is_running);
    assert!(!c.timer_a.is_running);
    // player B's press toggles the turn and applies B's increment
    let r = c.register_action(Some(Player::B), false);
    assert_eq!(r, Some(ChessClockBehavior::ToggleTurn));
    assert_eq!(c.active_player(), Some(Player::A));
    assert!(c.timer_a.is_running);
    assert!(!c.timer_b.is_running);
    assert_eq!(c.timer_b.remaining(), 302_000);
}

#[test]
fn non_target_player_press_is_ignored() {
    let mut c = five_minute_clock();
    c.register_action(Some(Player::A), false);
    // target is B; another press of A does nothing
    let r = c.register_action(Some(Player::A), false);
    assert_eq!(r, None);
    assert_eq!(c.active_player(), Some(Player::B));
    assert!(c.timer_b.is_running);
}

#[test]
fn expired_target_cannot_toggle() {
    let cfg = ChessClockConfig::new(Some([
        0, 1, 0x01, 0x2c, 0, 0, 0, 0, 0, 0, 0, 0, 0, 0, 0, 0,
    ]));
    let mut c = ChessClock::new(Some(cfg));
    // resume onto player A (duration 1 s)
    c.register_action(Some(Player::B), false);
    assert_eq!(c.active_player(), Some(Player::A));
    // 5 ticks of 200 ms reach zero; the sixth halts the expired timer
    for _ in 0..6 {
        c.tick();
    }
    assert!(c.timer_a.is_expired());
    assert!(!c.timer_a.is_running);
    // the expired target's press yields no behavior and nothing moves
    let r = c.register_action(Some(Player::A), false);
    assert_eq!(r, None);
    assert_eq!(c.active_player(), Some(Player::A));
    assert!(c.timer_a.is_expired());
    assert!(!c.timer_a.is_running);
}

#[test]
fn control_press_pauses_running_game() {
    let mut c = five_minute_clock();
    c.register_action(Some(Player::A), false);
    let r = c.register_action(None, false);
    assert_eq!(r, Some(ChessClockBehavior::Pause));
    assert_eq!(c.active_player(), None);
    assert!(!c.timer_a.is_running);
    assert!(!c.timer_b.is_running);
}

#[test]
fn control_press_while_paused_resets_both_timers() {
    let mut c = five_minute_clock();
    c.register_action(Some(Player::A), false);
    for _ in 0..25 {
        c.tick();
    }
    assert_eq!(c.timer_b.remaining(), 295_000);
    c.register_action(None, false);
    let r = c.register_action(None, false);
    assert_eq!(r, Some(ChessClockBehavior::Reset));
    assert_eq!(c.timer_a.remaining(), 300_000);
    assert_eq!(c.timer_b.remaining(), 300_000);
}

#[test]
fn reset_discards_accumulated_increments() {
    let mut c = five_minute_clock();
    c.register_action(Some(Player::A), false);
    c.register_action(Some(Player::B), false);
    assert_eq!(c.timer_b.remaining(), 302_000);
    c.register_action(None, false);  // pause
    c.register_action(None, false);  // reset
    assert_eq!(c.timer_b.remaining(), 300_000);
}

#[test]
fn long_press_enters_edit_mode_with_timers_reset() {
    let mut c = five_minute_clock();
    c.register_action(Some(Player::A), false);
    for _ in 0..10 {
        c.tick();
    }
    let r = c.register_action(None, true);
    assert_eq!(r, Some(ChessClockBehavior::ChangeMode));
    assert_eq!(c.mode, ClockMode::SetDecaminute);
    assert_eq!(c.active_player(), None);
    assert!(!c.timer_a.is_running);
    assert!(!c.timer_b.is_running);
    assert_eq!(c.timer_a.remaining(), 300_000);
    assert_eq!(c.timer_b.remaining(), 300_000);
}

#[test]
fn edit_cascade_wraps_back_to_play() {
    let mut c = five_minute_clock();
    c.register_action(None, true);
    let cascade = [
        ClockMode::SetMinute,
        ClockMode::SetDecasecond,
        ClockMode::SetSecond,
        ClockMode::SetDecasecondInterval,
        ClockMode::SetSecondInterval,
        ClockMode::SetBeepTone,
        ClockMode::SetBeepVolume,
        ClockMode::Play,
    ];
    for &expected in cascade.iter() {
        let r = c.register_action(None, false);
        assert_eq!(r, Some(ChessClockBehavior::ChangeMode));
        assert_eq!(c.mode, expected);
    }
}

#[test]
fn editing_ten_minutes_rotates_modulo_one_hour() {
    let mut c = five_minute_clock();
    c.register_action(None, true);
    assert_eq!(c.mode, ClockMode::SetDecaminute);
    // 5:00 + 10:00 = 15:00, and so on up to 55:00, then wrap to 5:00
    for expected in [900_000u32, 1_500_000, 2_100_000, 2_700_000, 3_300_000, 300_000].iter() {
        let r = c.register_action(Some(Player::A), false);
        assert_eq!(r, Some(ChessClockBehavior::EditTime));
        assert_eq!(c.timer_a.remaining(), *expected);
    }
    // only player A's timer was edited
    assert_eq!(c.timer_b.remaining(), 300_000);
}

#[test]
fn editing_minutes_rotates_modulo_ten_minutes() {
    let mut c = five_minute_clock();
    c.register_action(None, true);
    c.register_action(None, false);
    assert_eq!(c.mode, ClockMode::SetMinute);
    // 5:00 steps through 6:00 ... 9:00 and wraps to 0:00
    for expected in [360_000u32, 420_000, 480_000, 540_000, 0].iter() {
        c.register_action(Some(Player::B), false);
        assert_eq!(c.timer_b.remaining(), *expected);
    }
}

#[test]
fn editing_increment_rotates_its_digits() {
    let mut c = five_minute_clock();
    c.register_action(None, true);
    for _ in 0..4 {
        c.register_action(None, false);
    }
    assert_eq!(c.mode, ClockMode::SetDecasecondInterval);
    let r = c.register_action(Some(Player::A), false);
    assert_eq!(r, Some(ChessClockBehavior::EditTime));
    assert_eq!(c.increment_a, 12_000);
    c.register_action(None, false);
    assert_eq!(c.mode, ClockMode::SetSecondInterval);
    c.register_action(Some(Player::A), false);
    assert_eq!(c.increment_a, 13_000);
    // the other player's increment is untouched
    assert_eq!(c.increment_b, 2_000);
}

#[test]
fn beep_tone_saturates_at_its_bounds() {
    let mut c = five_minute_clock();
    c.register_action(None, true);
    for _ in 0..6 {
        c.register_action(None, false);
    }
    assert_eq!(c.mode, ClockMode::SetBeepTone);
    assert_eq!(c.beep_tone, 1);
    for _ in 0..10 {
        let r = c.register_action(Some(Player::A), false);
        assert_eq!(r, Some(ChessClockBehavior::EditTime));
    }
    assert_eq!(c.beep_tone, 5);
    for _ in 0..10 {
        c.register_action(Some(Player::B), false);
    }
    assert_eq!(c.beep_tone, 0);
}

#[test]
fn beep_adjustment_schedules_a_preview_cue() {
    let mut c = five_minute_clock();
    c.register_action(None, true);
    for _ in 0..6 {
        c.register_action(None, false);
    }
    c.consume_beep();
    c.register_action(Some(Player::A), false);
    let beep = c.consume_beep().expect("preview cue expected");
    assert_eq!(beep.tone, 2);
    assert_eq!(beep.volume, 2);
}

#[test]
fn volume_zero_silences_cues() {
    let cfg = ChessClockConfig::new(Some([
        0x01, 0x2c, 0x01, 0x2c, 2, 2, 0, 0, 0, 0, 0, 0, 0, 0, 0, 0,
    ]));
    let mut c = ChessClock::new(Some(cfg));
    c.register_action(Some(Player::A), false);
    c.register_action(Some(Player::B), false);
    assert_eq!(c.consume_beep(), None);
}

#[test]
fn toggle_turn_schedules_an_audible_cue() {
    let mut c = five_minute_clock();
    c.register_action(Some(Player::A), false);
    c.consume_beep();
    c.register_action(Some(Player::B), false);
    let beep = c.consume_beep().expect("toggle cue expected");
    assert_eq!(beep.tone, 1);
    assert_eq!(beep.volume, 2);
    // the cue is one-shot
    assert_eq!(c.consume_beep(), None);
}

#[test]
fn commit_snapshots_edited_time_as_new_duration() {
    let mut c = five_minute_clock();
    c.register_action(None, true);
    c.register_action(Some(Player::A), false);  // 15:00 for A
    assert!(!c.take_persist_request());
    let r = c.register_action(None, true);
    assert_eq!(r, Some(ChessClockBehavior::ChangeMode));
    assert_eq!(c.mode, ClockMode::Play);
    assert_eq!(c.timer_a.duration_millis, 900_000);
    assert_eq!(c.timer_b.duration_millis, 300_000);
    assert!(c.take_persist_request());
    assert!(!c.take_persist_request());
    // a reset now restores the committed duration
    c.register_action(None, false);
    assert_eq!(c.timer_a.remaining(), 900_000);
}

#[test]
fn tick_moves_only_the_running_timer() {
    let mut c = five_minute_clock();
    c.register_action(Some(Player::A), false);
    // at exactly 5:00.000 the first tick changes the displayed second
    assert_eq!(c.tick(), Some(Player::B));
    assert_eq!(c.timer_b.remaining(), 299_800);
    assert_eq!(c.timer_a.remaining(), 300_000);
    // the next four ticks stay within the same displayed second
    for _ in 0..4 {
        assert_eq!(c.tick(), None);
    }
    assert_eq!(c.timer_b.remaining(), 299_000);
    assert_eq!(c.tick(), Some(Player::B));
    assert_eq!(c.timer_b.remaining(), 298_800);
    assert_eq!(c.timer_a.remaining(), 300_000);
}

#[test]
fn tick_toggles_blink_phase() {
    let mut c = five_minute_clock();
    assert!(!c.blink_phase);
    c.tick();
    assert!(c.blink_phase);
    c.tick();
    assert!(!c.blink_phase);
}

#[test]
fn actions_request_a_full_refresh_but_plain_ticks_do_not() {
    let mut c = five_minute_clock();
    assert!(c.take_full_refresh());
    assert!(!c.take_full_refresh());
    c.register_action(Some(Player::A), false);
    assert!(c.take_full_refresh());
    c.tick();
    assert!(!c.take_full_refresh());
}

#[test]
fn record_keystate_debounces_player_presses() {
    let mut c = five_minute_clock();
    // arm the switch: 50 inactive scans confirm the idle state
    for _ in 0..50 {
        assert_eq!(c.record_keystate(Some(Player::A), false), None);
    }
    // 49 active scans make progress without confirming
    for _ in 0..49 {
        assert_eq!(c.record_keystate(Some(Player::A), true), None);
    }
    // the fiftieth confirms the press and the clock resumes
    let r = c.record_keystate(Some(Player::A), true);
    assert_eq!(r, Some(ChessClockBehavior::Resume));
    assert_eq!(c.active_player(), Some(Player::B));
}

#[test]
fn record_keystate_control_short_press_fires_on_release() {
    let mut c = five_minute_clock();
    for _ in 0..60 {
        assert_eq!(c.record_keystate(None, true), None);
    }
    // released after more than the short threshold: the short press fires
    let r = c.record_keystate(None, false);
    assert_eq!(r, Some(ChessClockBehavior::Reset));
}

#[test]
fn record_keystate_control_bounce_fires_nothing() {
    let mut c = five_minute_clock();
    for _ in 0..49 {
        assert_eq!(c.record_keystate(None, true), None);
    }
    assert_eq!(c.record_keystate(None, false), None);
}

#[test]
fn record_keystate_control_long_press_fires_at_threshold_without_release() {
    let mut c = five_minute_clock();
    for _ in 0..254 {
        assert_eq!(c.record_keystate(None, true), None);
    }
    let r = c.record_keystate(None, true);
    assert_eq!(r, Some(ChessClockBehavior::ChangeMode));
    assert_eq!(c.mode, ClockMode::SetDecaminute);
    // holding further does not refire, and the release fires nothing
    for _ in 0..100 {
        assert_eq!(c.record_keystate(None, true), None);
    }
    assert_eq!(c.record_keystate(None, false), None);
    assert_eq!(c.mode, ClockMode::SetDecaminute);
}

#[test]
fn play_display_blanks_leading_zero_only() {
    let c = five_minute_clock();
    let d = c.get_digits(Player::A);
    assert_eq!(d.get(DigitPosition::Decaminute), code_b::BLANK);
    assert_eq!(d.get(DigitPosition::Minute), 5);
    assert_eq!(d.get(DigitPosition::Decasecond), 0);
    assert_eq!(d.get(DigitPosition::Second), 0);
}

#[test]
fn play_display_shows_ten_minutes_digit_when_nonzero() {
    let cfg = ChessClockConfig::new(Some([
        0x02, 0x58, 0, 0, 0, 0, 0, 0, 0, 0, 0, 0, 0, 0, 0, 0,
    ]));
    let c = ChessClock::new(Some(cfg));
    let d = c.get_digits(Player::A);
    assert_eq!(d.get(DigitPosition::Decaminute), 1);
    assert_eq!(d.get(DigitPosition::Minute), 0);
}

#[test]
fn edit_display_shows_all_four_digits() {
    let mut c = five_minute_clock();
    c.register_action(None, true);
    let d = c.get_digits(Player::A);
    assert_eq!(d.get(DigitPosition::Decaminute), 0);
    assert_eq!(d.get(DigitPosition::Minute), 5);
}

#[test]
fn increment_screen_shows_dash_and_increment() {
    let mut c = five_minute_clock();
    c.register_action(None, true);
    for _ in 0..4 {
        c.register_action(None, false);
    }
    assert_eq!(c.mode, ClockMode::SetDecasecondInterval);
    let d = c.get_digits(Player::B);
    assert_eq!(d.get(DigitPosition::Decaminute), code_b::DASH);
    assert_eq!(d.get(DigitPosition::Decasecond), 0);
    assert_eq!(d.get(DigitPosition::Second), 2);
}

#[test]
fn beep_screens_spell_a_word_and_show_the_value() {
    let mut c = five_minute_clock();
    c.register_action(None, true);
    for _ in 0..6 {
        c.register_action(None, false);
    }
    assert_eq!(c.mode, ClockMode::SetBeepTone);
    let word = c.get_digits(Player::A);
    assert_eq!(word.get(DigitPosition::Decaminute), code_b::EIGHT);
    assert_eq!(word.get(DigitPosition::Minute), code_b::E);
    assert_eq!(word.get(DigitPosition::Decasecond), code_b::E);
    assert_eq!(word.get(DigitPosition::Second), code_b::P);
    let value = c.get_digits(Player::B);
    assert_eq!(value.get(DigitPosition::Second), 1);
    assert_eq!(value.get(DigitPosition::Decasecond), code_b::BLANK);
    c.register_action(None, false);
    assert_eq!(c.mode, ClockMode::SetBeepVolume);
    let value = c.get_digits(Player::B);
    assert_eq!(value.get(DigitPosition::Decasecond), code_b::L);
    assert_eq!(value.get(DigitPosition::Second), 2);
}

#[test]
fn blank_construction_matches_blank_record() {
    let c = ChessClock::new(None);
    assert_eq!(c.timer_a.remaining(), 0);
    assert_eq!(c.increment_a, 0);
    assert_eq!(c.beep_tone, 0);
    assert_eq!(c.beep_volume, 0);
    assert_eq!(c.mode, ClockMode::Play);
}

#[test]
fn out_of_range_stored_beep_settings_are_clamped() {
    let cfg = ChessClockConfig::new(Some([
        0, 0, 0, 0, 0, 0, 0, 0, 0b0111_0111, 0, 0, 0, 0, 0, 0, 0,
    ]));
    let c = ChessClock::new(Some(cfg));
    assert_eq!(c.beep_tone, 5);
    assert_eq!(c.beep_volume, 3);
}
