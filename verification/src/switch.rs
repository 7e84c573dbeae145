//! Debounced input channel for one mechanical switch.
//!
//! A raw boolean sample stream is folded into confirmed press events: a state
//! change is reported only after a run of consecutive samples, as long as the
//! configured confirmation threshold, all pulling in the anticipated
//! direction. Any sample that does not continue the pending transition
//! resets the confirmation counter, so bounce is absorbed silently.

use vstd::prelude::*;

verus! {

/// One debounce step on the channel state.
///
/// `awaiting_inactivity` is the anticipated direction: `true` while the
/// channel waits for the line to prove it is released, `false` while it
/// waits for a press. A sample equal to the anticipated direction makes no
/// progress and clears the counter. A sample that continues the pending
/// transition either completes it, once `conf` has reached `threshold`
/// (the channel then flips direction and reports an activation exactly when
/// the confirmed transition was a press), or increments the counter.
///
/// Returns the new anticipated direction, the new confirmation count, and
/// whether an activation was reported.
pub open spec fn spec_debounce_step(
    awaiting_inactivity: bool,
    conf: nat,
    threshold: nat,
    active: bool,
) -> (bool, nat, bool) {
    if awaiting_inactivity == active {
        (awaiting_inactivity, 0nat, false)
    } else if conf == threshold {
        (!awaiting_inactivity, 0nat, active)
    } else {
        (awaiting_inactivity, (conf + 1) as nat, false)
    }
}

/// The channel state after a whole stream of raw samples, together with how
/// many activations it reported along the way.
pub open spec fn spec_debounce_run(
    awaiting_inactivity: bool,
    conf: nat,
    threshold: nat,
    samples: Seq<bool>,
) -> (bool, nat, nat)
    decreases samples.len(),
{
    if samples.len() == 0 {
        (awaiting_inactivity, conf, 0nat)
    } else {
        let (aw1, c1, fired) = spec_debounce_step(awaiting_inactivity, conf, threshold, samples[0]);
        let (aw2, c2, n) = spec_debounce_run(aw1, c1, threshold, samples.drop_first());
        (aw2, c2, (n + if fired { 1nat } else { 0nat }) as nat)
    }
}

/// A stream of `k` consecutive "active" samples.
pub open spec fn spec_active_samples(k: nat) -> Seq<bool> {
    Seq::new(k, |i: int| true)
}

/// Debounce state for one switch.
#[derive(Clone, Copy, PartialEq, Eq, Structural, Debug)]
pub struct ToggleSwitch {
    pub awaiting_inactivity: bool,
    pub change_confirmations: u16,
    pub required_confirmation_reports: u16,
}

impl ToggleSwitch {
    /// The confirmation counter never exceeds the configured threshold.
    pub open spec fn wf(self) -> bool {
        self.change_confirmations <= self.required_confirmation_reports
    }

    /// The state of a fresh, idle switch.
    pub open spec fn spec_fresh(required_confirmation_reports: u16) -> ToggleSwitch {
        ToggleSwitch {
            awaiting_inactivity: true,
            change_confirmations: 0,
            required_confirmation_reports,
        }
    }

    /// Create a new idle switch state.
    pub fn new(required_confirmation_reports: u16) -> (r: ToggleSwitch)
        ensures
            r == ToggleSwitch::spec_fresh(required_confirmation_reports),
            r.wf(),
    {
        ToggleSwitch {
            awaiting_inactivity: true,
            change_confirmations: 0,
            required_confirmation_reports,
        }
    }

    /// Feed one raw sample; returns true exactly when the report confirmed
    /// an activation (a debounced press).
    pub fn report(&mut self, active: bool) -> (r: bool)
        requires
            old(self).wf(),
        ensures
            final(self).wf(),
            final(self).required_confirmation_reports
                == old(self).required_confirmation_reports,
            ({
                let (aw, conf, fired) = spec_debounce_step(
                    old(self).awaiting_inactivity,
                    old(self).change_confirmations as nat,
                    old(self).required_confirmation_reports as nat,
                    active,
                );
                final(self).awaiting_inactivity == aw
                    && final(self).change_confirmations as nat == conf
                    && r == fired
            }),
    {
        // no progress toward a state change
        if self.awaiting_inactivity == active {
            if self.change_confirmations != 0 {
                self.change_confirmations = 0;
            }
            return false;
        }

        // state change triggered
        if self.change_confirmations == self.required_confirmation_reports {
            self.change_confirmations = 0;
            self.awaiting_inactivity = !self.awaiting_inactivity;
            return active;
        }

        // progressing toward a state change
        self.change_confirmations += 1;
        false
    }

    /// Feed one raw sample, by value; calls `activation_listener` exactly
    /// when the report confirmed an activation, and returns the new state.
    pub fn report_alt<F: FnOnce() -> ()>(self, active: bool, activation_listener: F) -> (r:
        ToggleSwitch)
        requires
            self.wf(),
            call_requires(activation_listener, ()),
        ensures
            r.wf(),
            r.required_confirmation_reports == self.required_confirmation_reports,
            ({
                let (aw, conf, fired) = spec_debounce_step(
                    self.awaiting_inactivity,
                    self.change_confirmations as nat,
                    self.required_confirmation_reports as nat,
                    active,
                );
                r.awaiting_inactivity == aw && r.change_confirmations as nat == conf
            }),
    {
        // no progress toward a state change
        if self.awaiting_inactivity == active {
            return ToggleSwitch {
                awaiting_inactivity: self.awaiting_inactivity,
                change_confirmations: 0,
                required_confirmation_reports: self.required_confirmation_reports,
            };
        }

        // state change triggered
        if self.change_confirmations == self.required_confirmation_reports {
            if active {
                activation_listener();
            }
            return ToggleSwitch {
                awaiting_inactivity: !self.awaiting_inactivity,
                change_confirmations: 0,
                required_confirmation_reports: self.required_confirmation_reports,
            };
        }

        // progressing toward a state change
        ToggleSwitch {
            awaiting_inactivity: self.awaiting_inactivity,
            change_confirmations: self.change_confirmations + 1,
            required_confirmation_reports: self.required_confirmation_reports,
        }
    }
}

/// Reported activations compose over concatenated sample streams.
proof fn lemma_debounce_run_append(
    awaiting_inactivity: bool,
    conf: nat,
    threshold: nat,
    s1: Seq<bool>,
    s2: Seq<bool>,
)
    ensures
        ({
            let (aw1, c1, n1) = spec_debounce_run(awaiting_inactivity, conf, threshold, s1);
            let (aw2, c2, n2) = spec_debounce_run(aw1, c1, threshold, s2);
            spec_debounce_run(awaiting_inactivity, conf, threshold, s1 + s2) == (
                aw2,
                c2,
                (n1 + n2) as nat,
            )
        }),
    decreases s1.len(),
{
    if s1.len() == 0 {
        assert(s1 + s2 =~= s2);
    } else {
        let (aw1, c1, fired) = spec_debounce_step(awaiting_inactivity, conf, threshold, s1[0]);
        assert((s1 + s2)[0] == s1[0]);
        assert((s1 + s2).drop_first() =~= s1.drop_first() + s2);
        lemma_debounce_run_append(aw1, c1, threshold, s1.drop_first(), s2);
    }
}

/// While the counter stays below the threshold, consecutive "active" samples
/// only make progress: no activation is reported and the counter advances by
/// one per sample.
proof fn lemma_debounce_actives_progress(conf: nat, threshold: nat, k: nat)
    requires
        conf + k <= threshold,
    ensures
        spec_debounce_run(false, conf, threshold, spec_active_samples(k)) == (
            false,
            (conf + k) as nat,
            0nat,
        ),
    decreases k,
{
    if k == 0 {
        assert(spec_active_samples(0) =~= Seq::<bool>::empty());
    } else {
        assert(spec_active_samples(k)[0] == true);
        assert(spec_active_samples(k).drop_first() =~= spec_active_samples((k - 1) as nat));
        lemma_debounce_actives_progress((conf + 1) as nat, threshold, (k - 1) as nat);
    }
}

/// A channel that anticipates a press and is fed no more than the
/// confirmation threshold of "active" samples, followed by one "inactive"
/// sample, never reports an activation; the inactive sample clears the
/// pending progress.
pub proof fn lemma_debounce_rejects_short_burst(threshold: nat, k: nat)
    requires
        k <= threshold,
    ensures
        spec_debounce_run(false, 0nat, threshold, spec_active_samples(k) + seq![false]) == (
            false,
            0nat,
            0nat,
        ),
{
    lemma_debounce_actives_progress(0nat, threshold, k);
    lemma_debounce_run_append(false, 0nat, threshold, spec_active_samples(k), seq![false]);
    let s: Seq<bool> = seq![false];
    assert(s[0] == false);
    assert(s.drop_first() =~= Seq::<bool>::empty());
    let (aw1, c1, fired) = spec_debounce_step(false, k, threshold, false);
    assert(spec_debounce_run(aw1, c1, threshold, Seq::<bool>::empty()) == (aw1, c1, 0nat));
    assert(spec_debounce_run(false, k, threshold, s) == (false, 0nat, 0nat));
}

/// A channel that anticipates a press and is fed exactly one more "active"
/// sample than the confirmation threshold reports exactly one activation,
/// and then anticipates inactivity.
pub proof fn lemma_debounce_confirms_at_threshold(threshold: nat)
    ensures
        spec_debounce_run(false, 0nat, threshold, spec_active_samples(threshold + 1)) == (
            true,
            0nat,
            1nat,
        ),
{
    lemma_debounce_actives_progress(0nat, threshold, threshold);
    assert(spec_active_samples(threshold + 1) =~= spec_active_samples(threshold) + seq![true]);
    lemma_debounce_run_append(
        false,
        0nat,
        threshold,
        spec_active_samples(threshold),
        seq![true],
    );
    let s: Seq<bool> = seq![true];
    assert(s[0] == true);
    assert(s.drop_first() =~= Seq::<bool>::empty());
    let (aw1, c1, fired) = spec_debounce_step(false, threshold, threshold, true);
    assert(spec_debounce_run(aw1, c1, threshold, Seq::<bool>::empty()) == (aw1, c1, 0nat));
    assert(spec_debounce_run(false, threshold, threshold, s) == (true, 0nat, 1nat));
}

} // verus!
