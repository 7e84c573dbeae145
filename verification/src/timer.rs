//! Per-player countdown timer.
//!
//! The timer tracks a configured duration and the remaining time, both in
//! milliseconds, and is advanced by a periodic `tick` of a fixed interval.
//! It also carries the debounce state for the switch wired to it, fed
//! through [`Timer::report`].

use vstd::prelude::*;
use vstd::arithmetic::div_mod::lemma_fundamental_div_mod;
use vstd::arithmetic::mul::lemma_mul_inequality;
use crate::switch::spec_debounce_step;

verus! {

/// Consecutive confirming samples required before a debounced input reports
/// a state change.
pub const REQUIRED_CONFIRMATION_REPORTS: u8 = 49;

/// Consecutive active samples after which a held control switch is
/// confirmed as a long press.
pub const LONGPRESS_CONFIRMATION_REPORTS: u8 = 255;

/// One player's countdown timer, with the debounce state of its switch.
#[derive(Clone, Copy, PartialEq, Eq, Structural, Debug)]
pub struct Timer {
    /// The configured duration, restored by `reset`.
    pub duration_millis: u32,
    /// Whether the timer is counting down.
    pub is_running: bool,
    /// The remaining time; never goes below zero.
    pub remaining_millis: u32,
    /// How much `tick` removes from the remaining time.
    pub tick_interval_millis: u32,
    /// Debounce: anticipated direction of the wired switch.
    pub awaiting_inactivity: bool,
    /// Debounce: consecutive confirming samples seen so far.
    pub change_confirmations: u8,
}

/// Addition on a remaining time, capped at the largest representable value.
pub open spec fn spec_saturating_add(a: u32, b: u32) -> u32 {
    if a + b <= u32::MAX {
        (a + b) as u32
    } else {
        u32::MAX
    }
}

/// One tick of a timer: a stopped timer is unchanged; a running, expired
/// timer stops and gives a final digit-change notification; otherwise the
/// tick interval is removed from the remaining time (never below zero) and
/// a digit change is reported exactly when the subtraction crosses a
/// one-second boundary.
pub open spec fn spec_timer_tick(t: Timer) -> (Timer, bool) {
    if !t.is_running {
        (t, false)
    } else if t.remaining_millis == 0 {
        (Timer { is_running: false, ..t }, true)
    } else {
        let will_change = t.remaining_millis % 1000 < t.tick_interval_millis;
        let rem = if t.remaining_millis >= t.tick_interval_millis {
            (t.remaining_millis - t.tick_interval_millis) as u32
        } else {
            0u32
        };
        (Timer { remaining_millis: rem, ..t }, will_change)
    }
}

/// The timer after `n` ticks.
pub open spec fn spec_timer_after_ticks(t: Timer, n: nat) -> Timer
    decreases n,
{
    if n == 0 {
        t
    } else {
        spec_timer_after_ticks(spec_timer_tick(t).0, (n - 1) as nat)
    }
}

impl Timer {
    /// The timer is expired exactly when no time remains.
    pub open spec fn spec_is_expired(self) -> bool {
        self.remaining_millis == 0
    }

    /// The debounce counter never exceeds its threshold.
    pub open spec fn wf_debounce(self) -> bool {
        self.change_confirmations <= REQUIRED_CONFIRMATION_REPORTS
    }

    /// Create a stopped timer with `duration_millis` remaining.
    pub fn new(duration_millis: u32, tick_interval_millis: u32) -> (r: Timer)
        ensures
            r == (Timer {
                duration_millis,
                remaining_millis: duration_millis,
                is_running: false,
                tick_interval_millis,
                awaiting_inactivity: true,
                change_confirmations: 0,
            }),
    {
        Timer {
            duration_millis,
            remaining_millis: duration_millis,
            is_running: false,
            tick_interval_millis,
            awaiting_inactivity: true,
            change_confirmations: 0,
        }
    }

    /// Add time to the remaining clock time, saturating at the largest
    /// representable value; allowed while running.
    pub fn increment(&mut self, duration_millis: u32)
        ensures
            *final(self) == (Timer {
                remaining_millis: spec_saturating_add(
                    old(self).remaining_millis,
                    duration_millis,
                ),
                ..*old(self)
            }),
    {
        if duration_millis <= u32::MAX - self.remaining_millis {
            self.remaining_millis = self.remaining_millis + duration_millis;
        } else {
            self.remaining_millis = u32::MAX;
        }
    }

    pub fn is_expired(&self) -> (r: bool)
        ensures
            r == self.spec_is_expired(),
    {
        self.remaining_millis == 0
    }

    /// Pause the timer; idempotent.
    pub fn halt(&mut self)
        ensures
            *final(self) == (Timer { is_running: false, ..*old(self) }),
    {
        self.is_running = false;
    }

    /// Return the remaining time.
    pub fn remaining(&self) -> (r: u32)
        ensures
            r == self.remaining_millis,
    {
        self.remaining_millis
    }

    /// Feed one raw sample of the wired switch; returns true exactly when
    /// the report confirmed an activation (a debounced press).
    pub fn report(&mut self, active: bool) -> (r: bool)
        requires
            old(self).wf_debounce(),
        ensures
            final(self).wf_debounce(),
            ({
                let (aw, conf, fired) = spec_debounce_step(
                    old(self).awaiting_inactivity,
                    old(self).change_confirmations as nat,
                    REQUIRED_CONFIRMATION_REPORTS as nat,
                    active,
                );
                *final(self) == (Timer {
                    awaiting_inactivity: aw,
                    change_confirmations: conf as u8,
                    ..*old(self)
                }) && r == fired
            }),
    {
        // no progress toward a state change
        if self.awaiting_inactivity == active {
            if self.change_confirmations != 0 {
                self.change_confirmations = 0;
            }
            return false;
        }

        // state change triggered
        if self.change_confirmations == REQUIRED_CONFIRMATION_REPORTS {
            self.change_confirmations = 0;
            self.awaiting_inactivity = !self.awaiting_inactivity;
            return active;
        }

        // progressing toward a state change
        self.change_confirmations += 1;
        false
    }

    /// Stop the timer and restore the remaining time to the configured
    /// duration, discarding any accumulated increments.
    pub fn reset(&mut self)
        ensures
            *final(self) == (Timer {
                is_running: false,
                remaining_millis: old(self).duration_millis,
                ..*old(self)
            }),
    {
        self.halt();
        self.remaining_millis = self.duration_millis;
    }

    /// Begin running down the clock; no effect if already expired.
    pub fn run(&mut self)
        ensures
            *final(self) == (Timer {
                is_running: old(self).is_running || !old(self).spec_is_expired(),
                ..*old(self)
            }),
    {
        if !self.is_expired() {
            self.is_running = true;
        }
    }

    /// Tick the clock; returns true if this tick changed a visible digit.
    /// The exact transition is [`spec_timer_tick`].
    pub fn tick(&mut self) -> (r: bool)
        ensures
            *final(self) == spec_timer_tick(*old(self)).0,
            r == spec_timer_tick(*old(self)).1,
    {
        if !self.is_running {
            return false;
        }

        if self.is_expired() {
            self.is_running = false;
            return true;
        }

        let will_change = (self.remaining_millis % 1000) < self.tick_interval_millis;
        self.remaining_millis = if self.remaining_millis >= self.tick_interval_millis {
            self.remaining_millis - self.tick_interval_millis
        } else {
            0
        };
        will_change
    }
}

/// Once no time remains, further ticks never bring it back.
proof fn lemma_ticks_keep_zero(t: Timer, n: nat)
    requires
        t.remaining_millis == 0,
    ensures
        spec_timer_after_ticks(t, n).remaining_millis == 0,
    decreases n,
{
    if n > 0 {
        lemma_ticks_keep_zero(spec_timer_tick(t).0, (n - 1) as nat);
    }
}

/// A running timer whose remaining time is covered by `n` tick intervals is
/// expired after `n` ticks.
proof fn lemma_ticks_run_down(t: Timer, n: nat)
    requires
        t.is_running,
        t.tick_interval_millis >= 1,
        n * t.tick_interval_millis >= t.remaining_millis,
    ensures
        spec_timer_after_ticks(t, n).remaining_millis == 0,
    decreases n,
{
    let tick = t.tick_interval_millis;
    if t.remaining_millis == 0 {
        lemma_ticks_keep_zero(t, n);
    } else {
        assert(n >= 1) by {
            if n == 0 {
                assert(n * tick == 0) by (nonlinear_arith)
                    requires
                        n == 0,
                ;
            }
        }
        let t1 = spec_timer_tick(t).0;
        assert((n - 1) * tick == n * tick - tick) by (nonlinear_arith);
        lemma_ticks_run_down(t1, (n - 1) as nat);
        assert(spec_timer_after_ticks(t, n) == spec_timer_after_ticks(t1, (n - 1) as nat));
    }
}

/// The state of a fresh timer, before it is started: `Timer::new` followed
/// by `Timer::run` yields this state with `is_running` set exactly when the
/// duration is not zero.
pub open spec fn spec_timer_started(duration_millis: u32, tick_interval_millis: u32) -> Timer {
    Timer {
        duration_millis,
        remaining_millis: duration_millis,
        is_running: false,
        tick_interval_millis,
        awaiting_inactivity: true,
        change_confirmations: 0,
    }
}

/// A fresh timer that is started and then ticked at least
/// `ceil(duration / tick_interval)` times has run out: its remaining time
/// is zero, so `is_expired` holds, and the remaining time never went below
/// zero on the way (each tick removes at most one interval and stops at
/// zero, as [`spec_timer_tick`] states).
pub proof fn lemma_timer_runs_out(duration_millis: u32, tick_interval_millis: u32, n: nat)
    requires
        tick_interval_millis >= 1,
        n >= (duration_millis + tick_interval_millis - 1) / (tick_interval_millis as int),
    ensures
        ({
            let started = Timer {
                is_running: duration_millis > 0,
                ..spec_timer_started(duration_millis, tick_interval_millis)
            };
            spec_timer_after_ticks(started, n).spec_is_expired()
        }),
{
    let d = duration_millis as int;
    let tick = tick_interval_millis as int;
    let c = (d + tick - 1) / tick;
    lemma_fundamental_div_mod(d + tick - 1, tick);
    assert(tick * c >= d);
    if duration_millis == 0 {
        let started = Timer {
            is_running: false,
            ..spec_timer_started(duration_millis, tick_interval_millis)
        };
        lemma_ticks_keep_zero(started, n);
    } else {
        let started = Timer {
            is_running: true,
            ..spec_timer_started(duration_millis, tick_interval_millis)
        };
        lemma_mul_inequality(c, n as int, tick);
        assert(c * tick == tick * c) by (nonlinear_arith);
        assert(n * tick >= d);
        lemma_ticks_run_down(started, n);
    }
}

} // verus!
