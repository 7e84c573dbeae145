//! The chess clock state machine.
//!
//! The aggregate owns the two countdown timers, the active mode, the active
//! player, the editable settings and the per-input debounce state. It is
//! driven by exactly two stimuli: a periodic `tick` and raw switch samples
//! fed to `record_keystate`, which debounces them and translates confirmed
//! presses into transitions through `register_action`. Render, audio and
//! persistence collaborators poll the one-shot request flags; the core
//! performs no I/O.

use vstd::prelude::*;
use crate::code_b;
use crate::config::ChessClockConfig;
use crate::descriptor::{Beep, ChessClockBehavior, ClockMode, DigitPosition, DigitQuartet, Player};
use crate::digits;
use crate::switch::{spec_debounce_step, ToggleSwitch};
use crate::timer::{
    spec_saturating_add,
    spec_timer_tick,
    Timer,
    LONGPRESS_CONFIRMATION_REPORTS,
    REQUIRED_CONFIRMATION_REPORTS,
};

verus! {

/// How often the tick stimulus fires, in milliseconds.
pub const TICK_INTERVAL_MILLIS: u32 = 200;

/// The chess clock aggregate.
#[derive(Clone, Copy, Debug)]
pub struct ChessClock {
    /// The active mode; `Play` initially.
    pub mode: ClockMode,
    /// The player whose clock is counting down; `None` while paused or
    /// editing.
    pub target: Option<Player>,
    pub timer_a: Timer,
    pub timer_b: Timer,
    /// Per-player increment applied on a turn toggle, milliseconds.
    pub increment_a: u32,
    pub increment_b: u32,
    /// Per-player delay setting, milliseconds; persisted but not consumed
    /// by the core.
    pub delay_a: u32,
    pub delay_b: u32,
    /// Beep pitch class, 0 through 5.
    pub beep_tone: u8,
    /// Beep loudness class, 0 through 3; 0 silences cues.
    pub beep_volume: u8,
    /// One-shot audible cue for the audio collaborator.
    pub pending_beep: Option<Beep>,
    /// Toggled on every tick; drives blinking cues in the renderer.
    pub blink_phase: bool,
    /// One-shot request to redraw both players' displays.
    pub needs_full_refresh: bool,
    /// One-shot request to write the configuration record out.
    pub persist_pending: bool,
    /// Debounce state of the two player switches.
    pub switch_a: ToggleSwitch,
    pub switch_b: ToggleSwitch,
    /// Consecutive active samples of the control switch, capped at the
    /// long-press threshold.
    pub control_hold: u8,
}

impl ChessClock {
    /// Well-formedness: settings in range, debounce counters within their
    /// thresholds, a running timer only for the target player, and a
    /// target only in `Play` mode.
    pub open spec fn wf(self) -> bool {
        &&& self.beep_tone <= 5
        &&& self.beep_volume <= 3
        &&& self.switch_a.wf()
        &&& self.switch_b.wf()
        &&& self.timer_a.wf_debounce()
        &&& self.timer_b.wf_debounce()
        &&& (self.timer_a.is_running ==> self.target == Some(Player::A))
        &&& (self.timer_b.is_running ==> self.target == Some(Player::B))
        &&& (self.target is Some ==> self.mode == ClockMode::Play)
    }

    /// The timer owned by one player.
    pub open spec fn spec_timer(self, player: Player) -> Timer {
        match player {
            Player::A => self.timer_a,
            Player::B => self.timer_b,
        }
    }

    /// The increment setting of one player.
    pub open spec fn spec_increment(self, player: Player) -> u32 {
        match player {
            Player::A => self.increment_a,
            Player::B => self.increment_b,
        }
    }

    /// The debounce state of one player's switch.
    pub open spec fn spec_switch(self, player: Player) -> ToggleSwitch {
        match player {
            Player::A => self.switch_a,
            Player::B => self.switch_b,
        }
    }

    /// Create a clock from a configuration record; `None` behaves as the
    /// blank (all-zero) record. The clock starts paused in `Play` mode
    /// with a full redraw pending; stored tone and volume values beyond
    /// their documented ranges are clamped.
    pub fn new(config: Option<ChessClockConfig>) -> (r: ChessClock)
        ensures
            r.wf(),
            r.mode == ClockMode::Play,
            r.target is None,
            ({
                let bytes = (match config {
                    Some(c) => c.data@,
                    None => Seq::new(16nat, |i: int| 0u8),
                });
                &&& r.timer_a == (Timer {
                    duration_millis: (crate::config::spec_duration_seconds(bytes, Player::A)
                        * 1000) as u32,
                    remaining_millis: (crate::config::spec_duration_seconds(bytes, Player::A)
                        * 1000) as u32,
                    is_running: false,
                    tick_interval_millis: TICK_INTERVAL_MILLIS,
                    awaiting_inactivity: true,
                    change_confirmations: 0,
                })
                &&& r.timer_b == (Timer {
                    duration_millis: (crate::config::spec_duration_seconds(bytes, Player::B)
                        * 1000) as u32,
                    remaining_millis: (crate::config::spec_duration_seconds(bytes, Player::B)
                        * 1000) as u32,
                    is_running: false,
                    tick_interval_millis: TICK_INTERVAL_MILLIS,
                    awaiting_inactivity: true,
                    change_confirmations: 0,
                })
                &&& r.increment_a as nat == crate::config::spec_increment_seconds(
                    bytes,
                    Player::A,
                ) * 1000
                &&& r.increment_b as nat == crate::config::spec_increment_seconds(
                    bytes,
                    Player::B,
                ) * 1000
                &&& r.delay_a as nat == crate::config::spec_delay_seconds(bytes, Player::A) * 1000
                &&& r.delay_b as nat == crate::config::spec_delay_seconds(bytes, Player::B) * 1000
                &&& r.beep_tone as nat == (if crate::config::spec_beep_tone(bytes) <= 5 {
                    crate::config::spec_beep_tone(bytes)
                } else {
                    5nat
                })
                &&& r.beep_volume as nat == (if crate::config::spec_beep_volume(bytes) <= 3 {
                    crate::config::spec_beep_volume(bytes)
                } else {
                    3nat
                })
            }),
            r.pending_beep is None,
            !r.blink_phase,
            r.needs_full_refresh,
            !r.persist_pending,
            r.switch_a == ToggleSwitch::spec_fresh(REQUIRED_CONFIRMATION_REPORTS as u16),
            r.switch_b == ToggleSwitch::spec_fresh(REQUIRED_CONFIRMATION_REPORTS as u16),
            r.control_hold == 0,
    {
        let cfg = match config {
            Some(c) => c,
            None => ChessClockConfig::new(None),
        };
        let tone_raw = cfg.beep_tone();
        let volume_raw = cfg.beep_volume();
        ChessClock {
            mode: ClockMode::Play,
            target: None,
            timer_a: Timer::new(cfg.duration_millis(Player::A), TICK_INTERVAL_MILLIS),
            timer_b: Timer::new(cfg.duration_millis(Player::B), TICK_INTERVAL_MILLIS),
            increment_a: cfg.increment_millis(Player::A),
            increment_b: cfg.increment_millis(Player::B),
            delay_a: cfg.delay_millis(Player::A),
            delay_b: cfg.delay_millis(Player::B),
            beep_tone: if tone_raw <= 5 {
                tone_raw
            } else {
                5
            },
            beep_volume: if volume_raw <= 3 {
                volume_raw
            } else {
                3
            },
            pending_beep: None,
            blink_phase: false,
            needs_full_refresh: true,
            persist_pending: false,
            switch_a: ToggleSwitch::new(REQUIRED_CONFIRMATION_REPORTS as u16),
            switch_b: ToggleSwitch::new(REQUIRED_CONFIRMATION_REPORTS as u16),
            control_hold: 0,
        }
    }

    /// The player whose clock is counting down, if any.
    pub fn active_player(&self) -> (r: Option<Player>)
        ensures
            r == self.target,
    {
        self.target
    }

    /// Hand out the scheduled audible cue, if any, and clear it; a cue
    /// scheduled at volume zero is swallowed.
    pub fn consume_beep(&mut self) -> (r: Option<Beep>)
        ensures
            *final(self) == (ChessClock { pending_beep: None, ..*old(self) }),
            r == (match old(self).pending_beep {
                Some(b) => if b.volume > 0 {
                    Some(b)
                } else {
                    None::<Beep>
                },
                None => None::<Beep>,
            }),
    {
        let pending = self.pending_beep;
        self.pending_beep = None;
        match pending {
            Some(b) => if b.volume > 0 {
                Some(b)
            } else {
                None
            },
            None => None,
        }
    }

    /// Whether a full redraw of both displays is owed; reading clears the
    /// request.
    pub fn take_full_refresh(&mut self) -> (r: bool)
        ensures
            *final(self) == (ChessClock { needs_full_refresh: false, ..*old(self) }),
            r == old(self).needs_full_refresh,
    {
        let r = self.needs_full_refresh;
        self.needs_full_refresh = false;
        r
    }

    /// Whether the configuration record is owed to the non-volatile store;
    /// reading clears the request.
    pub fn take_persist_request(&mut self) -> (r: bool)
        ensures
            *final(self) == (ChessClock { persist_pending: false, ..*old(self) }),
            r == old(self).persist_pending,
    {
        let r = self.persist_pending;
        self.persist_pending = false;
        r
    }
}

/// The clock with one player's timer replaced.
pub open spec fn spec_with_timer(c: ChessClock, player: Player, t: Timer) -> ChessClock {
    match player {
        Player::A => ChessClock { timer_a: t, ..c },
        Player::B => ChessClock { timer_b: t, ..c },
    }
}

/// The clock with one player's increment setting replaced.
pub open spec fn spec_with_increment(c: ChessClock, player: Player, v: u32) -> ChessClock {
    match player {
        Player::A => ChessClock { increment_a: v, ..c },
        Player::B => ChessClock { increment_b: v, ..c },
    }
}

/// The clock with one player's switch state replaced.
pub open spec fn spec_with_switch(c: ChessClock, player: Player, s: ToggleSwitch) -> ChessClock {
    match player {
        Player::A => ChessClock { switch_a: s, ..c },
        Player::B => ChessClock { switch_b: s, ..c },
    }
}

/// A halted timer.
pub open spec fn spec_timer_halted(t: Timer) -> Timer {
    Timer { is_running: false, ..t }
}

/// A timer reset to its configured duration and halted.
pub open spec fn spec_timer_reset(t: Timer) -> Timer {
    Timer { is_running: false, remaining_millis: t.duration_millis, ..t }
}

/// A timer started, unless it is already expired.
pub open spec fn spec_timer_running(t: Timer) -> Timer {
    Timer { is_running: t.is_running || !t.spec_is_expired(), ..t }
}

/// The successor of a mode in the edit cascade; the cascade starts past
/// `Play` and wraps back to it.
pub open spec fn spec_next_mode(mode: ClockMode) -> ClockMode {
    match mode {
        ClockMode::Play => ClockMode::SetDecaminute,
        ClockMode::SetDecaminute => ClockMode::SetMinute,
        ClockMode::SetMinute => ClockMode::SetDecasecond,
        ClockMode::SetDecasecond => ClockMode::SetSecond,
        ClockMode::SetSecond => ClockMode::SetDecasecondInterval,
        ClockMode::SetDecasecondInterval => ClockMode::SetSecondInterval,
        ClockMode::SetSecondInterval => ClockMode::SetBeepTone,
        ClockMode::SetBeepTone => ClockMode::SetBeepVolume,
        ClockMode::SetBeepVolume => ClockMode::Play,
    }
}

/// One rotary adjustment of an edited value: the digit selected by `step`
/// within its radix (`max_digit + 1` values) advances by one, wrapping to
/// zero after `max_digit`, and the other digits keep their values. A value
/// too large for its digit to advance without overflow also wraps the digit
/// to zero.
pub open spec fn spec_rotary_adjust(value: u32, step: u32, max_digit: u32) -> u32
    recommends
        1 <= step,
        1 <= max_digit,
        step * (max_digit + 1) <= u32::MAX,
{
    let span = (step * (max_digit + 1)) as u32;
    let digit = (value % span) / step;
    if digit >= max_digit || value > u32::MAX - step {
        (value - digit * step) as u32
    } else {
        (value + step) as u32
    }
}

/// A player's press while playing: toggles the turn when that player is the
/// target and not expired (halting the mover, applying the mover's
/// increment, starting the opponent and scheduling a cue); resumes from
/// pause onto the presser's opponent; does nothing otherwise.
pub open spec fn spec_play_player_action(c: ChessClock, p: Player) -> (ChessClock, Option<
    ChessClockBehavior,
>) {
    match c.target {
        Some(t) => {
            if t != p {
                (c, None)
            } else if c.spec_timer(p).spec_is_expired() {
                (c, None)
            } else {
                let opp = p.spec_opponent();
                let mover = Timer {
                    is_running: false,
                    remaining_millis: spec_saturating_add(
                        c.spec_timer(p).remaining_millis,
                        c.spec_increment(p),
                    ),
                    ..c.spec_timer(p)
                };
                let c1 = spec_with_timer(
                    spec_with_timer(c, p, mover),
                    opp,
                    spec_timer_running(c.spec_timer(opp)),
                );
                (
                    ChessClock {
                        target: Some(opp),
                        pending_beep: Some(Beep { tone: c.beep_tone, volume: c.beep_volume }),
                        needs_full_refresh: true,
                        ..c1
                    },
                    Some(ChessClockBehavior::ToggleTurn),
                )
            }
        },
        None => {
            let opp = p.spec_opponent();
            let c1 = spec_with_timer(c, opp, spec_timer_running(c.spec_timer(opp)));
            (
                ChessClock { target: Some(opp), needs_full_refresh: true, ..c1 },
                Some(ChessClockBehavior::Resume),
            )
        },
    }
}

/// A short control press while playing: pauses a running game, or resets
/// both timers to their configured durations when already paused.
pub open spec fn spec_play_control_action(c: ChessClock) -> (ChessClock, Option<
    ChessClockBehavior,
>) {
    match c.target {
        Some(_) => (
            ChessClock {
                target: None,
                timer_a: spec_timer_halted(c.timer_a),
                timer_b: spec_timer_halted(c.timer_b),
                needs_full_refresh: true,
                ..c
            },
            Some(ChessClockBehavior::Pause),
        ),
        None => (
            ChessClock {
                timer_a: spec_timer_reset(c.timer_a),
                timer_b: spec_timer_reset(c.timer_b),
                needs_full_refresh: true,
                ..c
            },
            Some(ChessClockBehavior::Reset),
        ),
    }
}

/// A long control press while playing: both timers reset and halted, the
/// target cleared, and the first edit mode entered.
pub open spec fn spec_enter_edit(c: ChessClock) -> (ChessClock, Option<ChessClockBehavior>) {
    (
        ChessClock {
            mode: ClockMode::SetDecaminute,
            target: None,
            timer_a: spec_timer_reset(c.timer_a),
            timer_b: spec_timer_reset(c.timer_b),
            needs_full_refresh: true,
            ..c
        },
        Some(ChessClockBehavior::ChangeMode),
    )
}

/// A short control press while editing: the next mode of the cascade.
pub open spec fn spec_advance_mode(c: ChessClock) -> (ChessClock, Option<ChessClockBehavior>) {
    (
        ChessClock { mode: spec_next_mode(c.mode), needs_full_refresh: true, ..c },
        Some(ChessClockBehavior::ChangeMode),
    )
}

/// A long control press while editing commits: each timer's edited
/// remaining time becomes its new configured duration, the clock returns
/// to `Play`, and the configuration record is owed to the store.
pub open spec fn spec_commit_edit(c: ChessClock) -> (ChessClock, Option<ChessClockBehavior>) {
    (
        ChessClock {
            mode: ClockMode::Play,
            target: None,
            timer_a: Timer {
                duration_millis: c.timer_a.remaining_millis,
                is_running: false,
                ..c.timer_a
            },
            timer_b: Timer {
                duration_millis: c.timer_b.remaining_millis,
                is_running: false,
                ..c.timer_b
            },
            needs_full_refresh: true,
            persist_pending: true,
            ..c
        },
        Some(ChessClockBehavior::ChangeMode),
    )
}

/// A player's press while editing a time or increment digit: the edited
/// value's digit for the active mode advances with wraparound.
pub open spec fn spec_edit_time_adjust(c: ChessClock, p: Player, step: u32, max_digit: u32) -> (
    ChessClock,
    Option<ChessClockBehavior>,
) {
    let t = c.spec_timer(p);
    let t2 = Timer {
        remaining_millis: spec_rotary_adjust(t.remaining_millis, step, max_digit),
        ..t
    };
    (
        ChessClock { needs_full_refresh: true, ..spec_with_timer(c, p, t2) },
        Some(ChessClockBehavior::EditTime),
    )
}

pub open spec fn spec_edit_increment_adjust(c: ChessClock, p: Player, step: u32, max_digit: u32)
    -> (ChessClock, Option<ChessClockBehavior>) {
    let v = spec_rotary_adjust(c.spec_increment(p), step, max_digit);
    (
        ChessClock { needs_full_refresh: true, ..spec_with_increment(c, p, v) },
        Some(ChessClockBehavior::EditTime),
    )
}

/// A player's press on the beep screens: player A raises the value and
/// player B lowers it, saturating at the bounds; a non-zero volume
/// schedules a preview cue with the adjusted settings.
pub open spec fn spec_edit_beep_tone(c: ChessClock, p: Player) -> (ChessClock, Option<
    ChessClockBehavior,
>) {
    let tone = (match p {
        Player::A => if c.beep_tone < 5 {
            (c.beep_tone + 1) as u8
        } else {
            c.beep_tone
        },
        Player::B => if c.beep_tone > 0 {
            (c.beep_tone - 1) as u8
        } else {
            c.beep_tone
        },
    });
    let beep = (if c.beep_volume > 0 {
        Some(Beep { tone, volume: c.beep_volume })
    } else {
        c.pending_beep
    });
    (
        ChessClock { beep_tone: tone, pending_beep: beep, needs_full_refresh: true, ..c },
        Some(ChessClockBehavior::EditTime),
    )
}

pub open spec fn spec_edit_beep_volume(c: ChessClock, p: Player) -> (ChessClock, Option<
    ChessClockBehavior,
>) {
    let volume = (match p {
        Player::A => if c.beep_volume < 3 {
            (c.beep_volume + 1) as u8
        } else {
            c.beep_volume
        },
        Player::B => if c.beep_volume > 0 {
            (c.beep_volume - 1) as u8
        } else {
            c.beep_volume
        },
    });
    let beep = (if volume > 0 {
        Some(Beep { tone: c.beep_tone, volume })
    } else {
        c.pending_beep
    });
    (
        ChessClock { beep_volume: volume, pending_beep: beep, needs_full_refresh: true, ..c },
        Some(ChessClockBehavior::EditTime),
    )
}

/// A player's press while editing, by mode.
pub open spec fn spec_edit_player_action(c: ChessClock, p: Player) -> (ChessClock, Option<
    ChessClockBehavior,
>) {
    match c.mode {
        ClockMode::Play => (c, None),
        ClockMode::SetDecaminute => spec_edit_time_adjust(c, p, 600_000, 5),
        ClockMode::SetMinute => spec_edit_time_adjust(c, p, 60_000, 9),
        ClockMode::SetDecasecond => spec_edit_time_adjust(c, p, 10_000, 5),
        ClockMode::SetSecond => spec_edit_time_adjust(c, p, 1_000, 9),
        ClockMode::SetDecasecondInterval => spec_edit_increment_adjust(c, p, 10_000, 9),
        ClockMode::SetSecondInterval => spec_edit_increment_adjust(c, p, 1_000, 9),
        ClockMode::SetBeepTone => spec_edit_beep_tone(c, p),
        ClockMode::SetBeepVolume => spec_edit_beep_volume(c, p),
    }
}

/// The whole transition table: one confirmed action against the current
/// mode. Every combination is handled; a no-op yields no behavior.
pub open spec fn spec_register_action(c: ChessClock, actor: Option<Player>, long_press: bool) -> (
    ChessClock,
    Option<ChessClockBehavior>,
) {
    if c.mode == ClockMode::Play {
        match actor {
            Some(p) => if long_press {
                (c, None)
            } else {
                spec_play_player_action(c, p)
            },
            None => if long_press {
                spec_enter_edit(c)
            } else {
                spec_play_control_action(c)
            },
        }
    } else {
        match actor {
            Some(p) => if long_press {
                (c, None)
            } else {
                spec_edit_player_action(c, p)
            },
            None => if long_press {
                spec_commit_edit(c)
            } else {
                spec_advance_mode(c)
            },
        }
    }
}

/// One raw switch sample: a player sample runs through that switch's
/// debounce and registers a confirmed press; a control sample feeds the
/// hold counter, registering a long press exactly at the long threshold
/// and a short press on release after more than the short threshold of
/// consecutive active samples.
pub open spec fn spec_record_keystate(c: ChessClock, actor: Option<Player>, active: bool) -> (
    ChessClock,
    Option<ChessClockBehavior>,
) {
    match actor {
        Some(p) => {
            let sw = c.spec_switch(p);
            let (aw, conf, fired) = spec_debounce_step(
                sw.awaiting_inactivity,
                sw.change_confirmations as nat,
                sw.required_confirmation_reports as nat,
                active,
            );
            let c1 = spec_with_switch(
                c,
                p,
                ToggleSwitch {
                    awaiting_inactivity: aw,
                    change_confirmations: conf as u16,
                    required_confirmation_reports: sw.required_confirmation_reports,
                },
            );
            if fired {
                spec_register_action(c1, Some(p), false)
            } else {
                (c1, None)
            }
        },
        None => {
            if active {
                if c.control_hold < LONGPRESS_CONFIRMATION_REPORTS {
                    let c1 = ChessClock { control_hold: (c.control_hold + 1) as u8, ..c };
                    if c1.control_hold == LONGPRESS_CONFIRMATION_REPORTS {
                        spec_register_action(c1, None, true)
                    } else {
                        (c1, None)
                    }
                } else {
                    (c, None)
                }
            } else {
                let fired_short = c.control_hold > REQUIRED_CONFIRMATION_REPORTS
                    && c.control_hold < LONGPRESS_CONFIRMATION_REPORTS;
                let c1 = ChessClock { control_hold: 0, ..c };
                if fired_short {
                    spec_register_action(c1, None, false)
                } else {
                    (c1, None)
                }
            }
        },
    }
}

/// One tick of the whole clock: both timers tick (only a running one
/// moves), the blink phase flips, and the player whose visible digits
/// changed, if any, is reported for a partial redraw.
pub open spec fn spec_clock_tick(c: ChessClock) -> (ChessClock, Option<Player>) {
    let (ta, changed_a) = spec_timer_tick(c.timer_a);
    let (tb, changed_b) = spec_timer_tick(c.timer_b);
    let changed = (if changed_a {
        Some(Player::A)
    } else if changed_b {
        Some(Player::B)
    } else {
        None::<Player>
    });
    (ChessClock { timer_a: ta, timer_b: tb, blink_phase: !c.blink_phase, ..c }, changed)
}

/// The time digit shown at one position for a millisecond count.
pub open spec fn spec_time_code(ms: nat, pos: DigitPosition) -> u8 {
    match pos {
        DigitPosition::Decaminute => digits::spec_decaminute_digit(ms) as u8,
        DigitPosition::Minute => digits::spec_minute_digit(ms) as u8,
        DigitPosition::Decasecond => digits::spec_decasecond_digit(ms) as u8,
        DigitPosition::Second => digits::spec_second_digit(ms) as u8,
    }
}

/// The word spelled on player A's display while a beep screen is active.
pub open spec fn spec_beep_word_code(pos: DigitPosition) -> u8 {
    match pos {
        DigitPosition::Decaminute => code_b::EIGHT,
        DigitPosition::Minute => code_b::E,
        DigitPosition::Decasecond => code_b::E,
        DigitPosition::Second => code_b::P,
    }
}

/// What one position of one player's display shows.
///
/// In `Play` the remaining time is shown, with a zero ten-minutes digit
/// blanked; while a time digit is edited all four digits are shown. The
/// increment screens show the edited player's increment as a time with a
/// dash marking the screen. The beep screens spell a word on player A's
/// display and show the edited value on player B's.
pub open spec fn spec_display_code(c: ChessClock, p: Player, pos: DigitPosition) -> u8 {
    let rem = c.spec_timer(p).remaining_millis as nat;
    match c.mode {
        ClockMode::Play => if pos == DigitPosition::Decaminute && digits::spec_decaminute_digit(
            rem,
        ) == 0 {
            code_b::BLANK
        } else {
            spec_time_code(rem, pos)
        },
        ClockMode::SetDecaminute | ClockMode::SetMinute | ClockMode::SetDecasecond
            | ClockMode::SetSecond => spec_time_code(rem, pos),
        ClockMode::SetDecasecondInterval | ClockMode::SetSecondInterval => {
            if pos == DigitPosition::Decaminute {
                code_b::DASH
            } else {
                spec_time_code(c.spec_increment(p) as nat, pos)
            }
        },
        ClockMode::SetBeepTone => match p {
            Player::A => spec_beep_word_code(pos),
            Player::B => if pos == DigitPosition::Second {
                c.beep_tone
            } else {
                code_b::BLANK
            },
        },
        ClockMode::SetBeepVolume => match p {
            Player::A => spec_beep_word_code(pos),
            Player::B => if pos == DigitPosition::Second {
                c.beep_volume
            } else if pos == DigitPosition::Decasecond {
                code_b::L
            } else {
                code_b::BLANK
            },
        },
    }
}

/// The word spelled on player A's display while a beep screen is active.
fn beep_word() -> (r: DigitQuartet)
    ensures
        r.spec_get(DigitPosition::Decaminute) == spec_beep_word_code(DigitPosition::Decaminute),
        r.spec_get(DigitPosition::Minute) == spec_beep_word_code(DigitPosition::Minute),
        r.spec_get(DigitPosition::Decasecond) == spec_beep_word_code(DigitPosition::Decasecond),
        r.spec_get(DigitPosition::Second) == spec_beep_word_code(DigitPosition::Second),
{
    let mut d = DigitQuartet::new();
    d.set(DigitPosition::Decaminute, code_b::EIGHT);
    d.set(DigitPosition::Minute, code_b::E);
    d.set(DigitPosition::Decasecond, code_b::E);
    d.set(DigitPosition::Second, code_b::P);
    proof {
        digits::lemma_low_nibble_identity(code_b::EIGHT);
        digits::lemma_low_nibble_identity(code_b::E);
        digits::lemma_low_nibble_identity(code_b::P);
    }
    d
}

/// Advance the digit selected by `step` within its radix, wrapping past
/// `max_digit`; see [`spec_rotary_adjust`].
fn rotary_adjust(value: u32, step: u32, max_digit: u32) -> (r: u32)
    requires
        1 <= step,
        1 <= max_digit,
        step * (max_digit + 1) <= u32::MAX,
    ensures
        r == spec_rotary_adjust(value, step, max_digit),
{
    proof {
        assert(max_digit + 1 <= step * (max_digit + 1) && step <= step * (max_digit + 1))
            by (nonlinear_arith)
            requires
                step >= 1,
                max_digit >= 1,
        ;
    }
    let span = step * (max_digit + 1);
    let digit = (value % span) / step;
    proof {
        let v = value as int;
        let sp = span as int;
        let st = step as int;
        vstd::arithmetic::div_mod::lemma_mod_division_less_than_divisor(v, sp);
        vstd::arithmetic::div_mod::lemma_mod_decreases(value as nat, span as nat);
        vstd::arithmetic::div_mod::lemma_fundamental_div_mod(v % sp, st);
        vstd::arithmetic::div_mod::lemma_mod_division_less_than_divisor(v % sp, st);
        let q = (v % sp) / st;
        assert(st * q <= v % sp);
        assert(q * st == st * q) by (nonlinear_arith);
        assert(digit * step <= v % sp);
    }
    if digit >= max_digit || value > u32::MAX - step {
        value - digit * step
    } else {
        value + step
    }
}

impl ChessClock {
    /// A confirmed player press while in `Play` mode.
    fn play_player_action(&mut self, player: Player) -> (r: Option<ChessClockBehavior>)
        requires
            old(self).wf(),
            old(self).mode == ClockMode::Play,
        ensures
            final(self).wf(),
            *final(self) == spec_play_player_action(*old(self), player).0,
            r == spec_play_player_action(*old(self), player).1,
    {
        match self.target {
            Some(t) => {
                if t != player {
                    return None;
                }
                let expired = match player {
                    Player::A => self.timer_a.is_expired(),
                    Player::B => self.timer_b.is_expired(),
                };
                if expired {
                    return None;
                }
                match player {
                    Player::A => {
                        let inc = self.increment_a;
                        self.timer_a.halt();
                        self.timer_a.increment(inc);
                        self.timer_b.run();
                    },
                    Player::B => {
                        let inc = self.increment_b;
                        self.timer_b.halt();
                        self.timer_b.increment(inc);
                        self.timer_a.run();
                    },
                }
                self.target = Some(player.opponent());
                self.pending_beep = Some(Beep { tone: self.beep_tone, volume: self.beep_volume });
                self.needs_full_refresh = true;
                Some(ChessClockBehavior::ToggleTurn)
            },
            None => {
                match player {
                    Player::A => self.timer_b.run(),
                    Player::B => self.timer_a.run(),
                }
                self.target = Some(player.opponent());
                self.needs_full_refresh = true;
                Some(ChessClockBehavior::Resume)
            },
        }
    }

    /// A confirmed short control press while in `Play` mode.
    fn play_control_action(&mut self) -> (r: Option<ChessClockBehavior>)
        requires
            old(self).wf(),
            old(self).mode == ClockMode::Play,
        ensures
            final(self).wf(),
            *final(self) == spec_play_control_action(*old(self)).0,
            r == spec_play_control_action(*old(self)).1,
    {
        match self.target {
            Some(_) => {
                self.timer_a.halt();
                self.timer_b.halt();
                self.target = None;
                self.needs_full_refresh = true;
                Some(ChessClockBehavior::Pause)
            },
            None => {
                self.timer_a.reset();
                self.timer_b.reset();
                self.needs_full_refresh = true;
                Some(ChessClockBehavior::Reset)
            },
        }
    }

    /// A confirmed long control press while in `Play` mode.
    fn enter_edit(&mut self) -> (r: Option<ChessClockBehavior>)
        requires
            old(self).wf(),
            old(self).mode == ClockMode::Play,
        ensures
            final(self).wf(),
            *final(self) == spec_enter_edit(*old(self)).0,
            r == spec_enter_edit(*old(self)).1,
    {
        self.timer_a.reset();
        self.timer_b.reset();
        self.target = None;
        self.mode = ClockMode::SetDecaminute;
        self.needs_full_refresh = true;
        Some(ChessClockBehavior::ChangeMode)
    }

    /// A confirmed short control press while editing.
    fn advance_mode(&mut self) -> (r: Option<ChessClockBehavior>)
        requires
            old(self).wf(),
            old(self).mode != ClockMode::Play,
        ensures
            final(self).wf(),
            *final(self) == spec_advance_mode(*old(self)).0,
            r == spec_advance_mode(*old(self)).1,
    {
        self.mode = match self.mode {
            ClockMode::Play => ClockMode::SetDecaminute,
            ClockMode::SetDecaminute => ClockMode::SetMinute,
            ClockMode::SetMinute => ClockMode::SetDecasecond,
            ClockMode::SetDecasecond => ClockMode::SetSecond,
            ClockMode::SetSecond => ClockMode::SetDecasecondInterval,
            ClockMode::SetDecasecondInterval => ClockMode::SetSecondInterval,
            ClockMode::SetSecondInterval => ClockMode::SetBeepTone,
            ClockMode::SetBeepTone => ClockMode::SetBeepVolume,
            ClockMode::SetBeepVolume => ClockMode::Play,
        };
        self.needs_full_refresh = true;
        Some(ChessClockBehavior::ChangeMode)
    }

    /// A confirmed long control press while editing: commit.
    fn commit_edit(&mut self) -> (r: Option<ChessClockBehavior>)
        requires
            old(self).wf(),
            old(self).mode != ClockMode::Play,
        ensures
            final(self).wf(),
            *final(self) == spec_commit_edit(*old(self)).0,
            r == spec_commit_edit(*old(self)).1,
    {
        self.timer_a.duration_millis = self.timer_a.remaining_millis;
        self.timer_a.is_running = false;
        self.timer_b.duration_millis = self.timer_b.remaining_millis;
        self.timer_b.is_running = false;
        self.target = None;
        self.mode = ClockMode::Play;
        self.needs_full_refresh = true;
        self.persist_pending = true;
        Some(ChessClockBehavior::ChangeMode)
    }

    /// Adjust the edited remaining time of one player by one rotary step.
    fn adjust_remaining(&mut self, player: Player, step: u32, max_digit: u32)
        requires
            1 <= step,
            1 <= max_digit,
            step * (max_digit + 1) <= u32::MAX,
        ensures
            *final(self) == (ChessClock {
                needs_full_refresh: true,
                ..spec_with_timer(
                    *old(self),
                    player,
                    Timer {
                        remaining_millis: spec_rotary_adjust(
                            old(self).spec_timer(player).remaining_millis,
                            step,
                            max_digit,
                        ),
                        ..old(self).spec_timer(player)
                    },
                )
            }),
    {
        match player {
            Player::A => {
                self.timer_a.remaining_millis = rotary_adjust(
                    self.timer_a.remaining_millis,
                    step,
                    max_digit,
                );
            },
            Player::B => {
                self.timer_b.remaining_millis = rotary_adjust(
                    self.timer_b.remaining_millis,
                    step,
                    max_digit,
                );
            },
        }
        self.needs_full_refresh = true;
    }

    /// Adjust one player's increment setting by one rotary step.
    fn adjust_increment(&mut self, player: Player, step: u32, max_digit: u32)
        requires
            1 <= step,
            1 <= max_digit,
            step * (max_digit + 1) <= u32::MAX,
        ensures
            *final(self) == (ChessClock {
                needs_full_refresh: true,
                ..spec_with_increment(
                    *old(self),
                    player,
                    spec_rotary_adjust(old(self).spec_increment(player), step, max_digit),
                )
            }),
    {
        match player {
            Player::A => {
                self.increment_a = rotary_adjust(self.increment_a, step, max_digit);
            },
            Player::B => {
                self.increment_b = rotary_adjust(self.increment_b, step, max_digit);
            },
        }
        self.needs_full_refresh = true;
    }

    /// A confirmed player press while editing, by mode.
    fn edit_player_action(&mut self, player: Player) -> (r: Option<ChessClockBehavior>)
        requires
            old(self).wf(),
            old(self).mode != ClockMode::Play,
        ensures
            final(self).wf(),
            *final(self) == spec_edit_player_action(*old(self), player).0,
            r == spec_edit_player_action(*old(self), player).1,
    {
        match self.mode {
            ClockMode::Play => None,
            ClockMode::SetDecaminute => {
                self.adjust_remaining(player, 600_000, 5);
                Some(ChessClockBehavior::EditTime)
            },
            ClockMode::SetMinute => {
                self.adjust_remaining(player, 60_000, 9);
                Some(ChessClockBehavior::EditTime)
            },
            ClockMode::SetDecasecond => {
                self.adjust_remaining(player, 10_000, 5);
                Some(ChessClockBehavior::EditTime)
            },
            ClockMode::SetSecond => {
                self.adjust_remaining(player, 1_000, 9);
                Some(ChessClockBehavior::EditTime)
            },
            ClockMode::SetDecasecondInterval => {
                self.adjust_increment(player, 10_000, 9);
                Some(ChessClockBehavior::EditTime)
            },
            ClockMode::SetSecondInterval => {
                self.adjust_increment(player, 1_000, 9);
                Some(ChessClockBehavior::EditTime)
            },
            ClockMode::SetBeepTone => {
                match player {
                    Player::A => if self.beep_tone < 5 {
                        self.beep_tone = self.beep_tone + 1;
                    },
                    Player::B => if self.beep_tone > 0 {
                        self.beep_tone = self.beep_tone - 1;
                    },
                }
                if self.beep_volume > 0 {
                    self.pending_beep = Some(
                        Beep { tone: self.beep_tone, volume: self.beep_volume },
                    );
                }
                self.needs_full_refresh = true;
                Some(ChessClockBehavior::EditTime)
            },
            ClockMode::SetBeepVolume => {
                match player {
                    Player::A => if self.beep_volume < 3 {
                        self.beep_volume = self.beep_volume + 1;
                    },
                    Player::B => if self.beep_volume > 0 {
                        self.beep_volume = self.beep_volume - 1;
                    },
                }
                if self.beep_volume > 0 {
                    self.pending_beep = Some(
                        Beep { tone: self.beep_tone, volume: self.beep_volume },
                    );
                }
                self.needs_full_refresh = true;
                Some(ChessClockBehavior::EditTime)
            },
        }
    }

    /// Apply one confirmed input action: `actor` is `Some(player)` for a
    /// player switch and `None` for the control switch; `long_press` holds
    /// only for a confirmed long hold of the control switch. Total: every
    /// combination is handled, and a no-op returns no behavior. The exact
    /// transition table is [`spec_register_action`].
    pub fn register_action(&mut self, actor: Option<Player>, long_press: bool) -> (r: Option<
        ChessClockBehavior,
    >)
        requires
            old(self).wf(),
        ensures
            final(self).wf(),
            *final(self) == spec_register_action(*old(self), actor, long_press).0,
            r == spec_register_action(*old(self), actor, long_press).1,
    {
        let play = self.mode == ClockMode::Play;
        if play {
            match actor {
                Some(p) => if long_press {
                    None
                } else {
                    self.play_player_action(p)
                },
                None => if long_press {
                    self.enter_edit()
                } else {
                    self.play_control_action()
                },
            }
        } else {
            match actor {
                Some(p) => if long_press {
                    None
                } else {
                    self.edit_player_action(p)
                },
                None => if long_press {
                    self.commit_edit()
                } else {
                    self.advance_mode()
                },
            }
        }
    }

    /// Render one player's display: four codes chosen by the active mode;
    /// see [`spec_display_code`].
    pub fn get_digits(&self, player: Player) -> (r: DigitQuartet)
        requires
            self.wf(),
        ensures
            r.spec_get(DigitPosition::Decaminute) == spec_display_code(
                *self,
                player,
                DigitPosition::Decaminute,
            ),
            r.spec_get(DigitPosition::Minute) == spec_display_code(
                *self,
                player,
                DigitPosition::Minute,
            ),
            r.spec_get(DigitPosition::Decasecond) == spec_display_code(
                *self,
                player,
                DigitPosition::Decasecond,
            ),
            r.spec_get(DigitPosition::Second) == spec_display_code(
                *self,
                player,
                DigitPosition::Second,
            ),
    {
        let rem = match player {
            Player::A => self.timer_a.remaining(),
            Player::B => self.timer_b.remaining(),
        };
        match self.mode {
            ClockMode::Play => {
                let mut d = digits::milliseconds_to_digits(rem);
                if d.get(DigitPosition::Decaminute) == 0 {
                    d.set(DigitPosition::Decaminute, code_b::BLANK);
                    proof {
                        digits::lemma_low_nibble_identity(code_b::BLANK);
                    }
                }
                d
            },
            ClockMode::SetDecaminute | ClockMode::SetMinute | ClockMode::SetDecasecond
                | ClockMode::SetSecond => digits::milliseconds_to_digits(rem),
            ClockMode::SetDecasecondInterval | ClockMode::SetSecondInterval => {
                let inc = match player {
                    Player::A => self.increment_a,
                    Player::B => self.increment_b,
                };
                let mut d = digits::milliseconds_to_digits(inc);
                d.set(DigitPosition::Decaminute, code_b::DASH);
                proof {
                    digits::lemma_low_nibble_identity(code_b::DASH);
                }
                d
            },
            ClockMode::SetBeepTone => match player {
                Player::A => beep_word(),
                Player::B => {
                    let mut d = DigitQuartet::new();
                    d.set(DigitPosition::Second, self.beep_tone);
                    proof {
                        digits::lemma_low_nibble_identity(self.beep_tone);
                    }
                    d
                },
            },
            ClockMode::SetBeepVolume => match player {
                Player::A => beep_word(),
                Player::B => {
                    let mut d = DigitQuartet::new();
                    d.set(DigitPosition::Decasecond, code_b::L);
                    d.set(DigitPosition::Second, self.beep_volume);
                    proof {
                        digits::lemma_low_nibble_identity(code_b::L);
                        digits::lemma_low_nibble_identity(self.beep_volume);
                    }
                    d
                },
            },
        }
    }

    /// Feed one raw sample of one switch: `actor` is `Some(player)` for a
    /// player switch and `None` for the control switch; `active` is the
    /// raw closed-contact reading. Player samples run through the
    /// short-threshold debounce and a confirmed press registers at once.
    /// Control samples feed the hold counter: reaching the long threshold
    /// registers a long press immediately, and a release after more than
    /// the short threshold of consecutive active samples, but before the
    /// long threshold, registers the short press that would otherwise be
    /// lost. The exact transition is [`spec_record_keystate`].
    pub fn record_keystate(&mut self, actor: Option<Player>, active: bool) -> (r: Option<
        ChessClockBehavior,
    >)
        requires
            old(self).wf(),
        ensures
            final(self).wf(),
            *final(self) == spec_record_keystate(*old(self), actor, active).0,
            r == spec_record_keystate(*old(self), actor, active).1,
    {
        match actor {
            Some(p) => {
                let fired = match p {
                    Player::A => self.switch_a.report(active),
                    Player::B => self.switch_b.report(active),
                };
                if fired {
                    self.register_action(Some(p), false)
                } else {
                    None
                }
            },
            None => {
                if active {
                    if self.control_hold < LONGPRESS_CONFIRMATION_REPORTS {
                        self.control_hold = self.control_hold + 1;
                        if self.control_hold == LONGPRESS_CONFIRMATION_REPORTS {
                            return self.register_action(None, true);
                        }
                    }
                    None
                } else {
                    let fired_short = self.control_hold > REQUIRED_CONFIRMATION_REPORTS
                        && self.control_hold < LONGPRESS_CONFIRMATION_REPORTS;
                    self.control_hold = 0;
                    if fired_short {
                        self.register_action(None, false)
                    } else {
                        None
                    }
                }
            },
        }
    }

    /// The periodic tick stimulus: advance both timers and report the
    /// player whose visible digits changed, for a partial redraw. The
    /// exact transition is [`spec_clock_tick`].
    pub fn tick(&mut self) -> (r: Option<Player>)
        requires
            old(self).wf(),
        ensures
            final(self).wf(),
            *final(self) == spec_clock_tick(*old(self)).0,
            r == spec_clock_tick(*old(self)).1,
    {
        let changed_a = self.timer_a.tick();
        let changed_b = self.timer_b.tick();
        self.blink_phase = !self.blink_phase;
        if changed_a {
            Some(Player::A)
        } else if changed_b {
            Some(Player::B)
        } else {
            None
        }
    }
}

} // verus!
