//! The edge monitor: detects level transitions on the watched inputs and
//! coalesces bursts into single triggers.
//!
//! The monitor alternates between two phases. While `Armed` it waits on a
//! fan-in race over every watched input; the first transition wins the race,
//! emits one trigger into the channel, and puts the monitor into `Settling`
//! for a fixed settle window ([`crate::SETTLE_SECONDS`]). Transitions during
//! the settle window are deliberately not observed — several indicator lines
//! frequently change together, and the window folds such a burst into exactly
//! one trigger. When the window elapses the monitor re-arms.
//!
//! The hardware race and the settle timer run in the surrounding task; it
//! reports them here as [`InputEvent`]s, and this module decides what each
//! one does.

use vstd::prelude::*;

use crate::channel::{overflows_after_send, pending_after_send, Trigger, TriggerChannel};

verus! {

/// Phase of the edge monitor.
#[derive(Clone, Copy, Debug, PartialEq, Eq, Structural)]
pub enum MonitorPhase {
    /// The fan-in race over the watched inputs is armed.
    Armed,
    /// A transition was just serviced; detection is paused for the settle
    /// window.
    Settling,
}

/// What the surrounding task observed: either some watched input changed
/// level, or the settle timer ran out.
#[derive(Clone, Copy, Debug, PartialEq, Eq, Structural)]
pub enum InputEvent {
    /// At least one watched input changed level.
    Transition,
    /// The settle window after the previous serviced transition elapsed.
    SettleElapsed,
}

/// Phase after the monitor handles one event: a serviced transition starts
/// the settle window, the window's expiry re-arms detection, and anything
/// else changes nothing.
pub open spec fn monitor_step(p: MonitorPhase, ev: InputEvent) -> MonitorPhase {
    match (p, ev) {
        (MonitorPhase::Armed, InputEvent::Transition) => MonitorPhase::Settling,
        (MonitorPhase::Armed, InputEvent::SettleElapsed) => MonitorPhase::Armed,
        (MonitorPhase::Settling, InputEvent::Transition) => MonitorPhase::Settling,
        (MonitorPhase::Settling, InputEvent::SettleElapsed) => MonitorPhase::Armed,
    }
}

/// Whether handling this event emits a trigger: only a transition seen while
/// armed does.
pub open spec fn monitor_emits(p: MonitorPhase, ev: InputEvent) -> bool {
    p is Armed && ev is Transition
}

/// Number of triggers the monitor emits while handling `evs` in order,
/// starting from phase `p`.
pub open spec fn emit_count(p: MonitorPhase, evs: Seq<InputEvent>) -> nat
    decreases evs.len(),
{
    if evs.len() == 0 {
        0
    } else {
        (if monitor_emits(p, evs[0]) {
            1nat
        } else {
            0nat
        }) + emit_count(monitor_step(p, evs[0]), evs.drop_first())
    }
}

/// While settling, transitions emit nothing: until the settle window
/// elapses, no event adds a trigger.
pub proof fn lemma_settling_emits_none(evs: Seq<InputEvent>)
    requires
        forall|i: int| 0 <= i < evs.len() ==> evs[i] !is SettleElapsed,
    ensures
        emit_count(MonitorPhase::Settling, evs) == 0,
    decreases evs.len(),
{
    if evs.len() > 0 {
        assert(forall|i: int|
            0 <= i < evs.drop_first().len() ==> evs.drop_first()[i] == evs[i + 1]);
        lemma_settling_emits_none(evs.drop_first());
    }
}

/// Any burst of transitions falling within one settle window of the first —
/// that is, a transition followed by further transitions with no settle
/// expiry among them — emits exactly one trigger, however many transitions
/// the burst holds.
pub proof fn lemma_burst_emits_one_trigger(evs: Seq<InputEvent>)
    requires
        evs.len() > 0,
        evs[0] is Transition,
        forall|i: int| 0 <= i < evs.len() ==> evs[i] !is SettleElapsed,
    ensures
        emit_count(MonitorPhase::Armed, evs) == 1,
{
    assert(monitor_emits(MonitorPhase::Armed, evs[0]));
    assert(monitor_step(MonitorPhase::Armed, evs[0]) is Settling);
    assert(forall|i: int|
        0 <= i < evs.drop_first().len() ==> evs.drop_first()[i] == evs[i + 1]);
    lemma_settling_emits_none(evs.drop_first());
}

/// The edge monitor's decision state. The fan-in hardware race and the
/// settle timer live in the surrounding task; this struct holds only which
/// phase the monitor is in.
pub struct EdgeMonitor {
    phase: MonitorPhase,
}

impl EdgeMonitor {
    pub closed spec fn phase(self) -> MonitorPhase {
        self.phase
    }

    /// A fresh monitor is armed: the first transition it sees is serviced.
    pub fn new() -> (m: EdgeMonitor)
        ensures
            m.phase() is Armed,
    {
        EdgeMonitor { phase: MonitorPhase::Armed }
    }

    pub fn current_phase(&self) -> (p: MonitorPhase)
        ensures
            p == self.phase(),
    {
        self.phase
    }

    /// Handle one observed event. A transition seen while armed emits one
    /// trigger — enqueued if the channel has room, counted as an overflow
    /// and dropped if not, never blocking — and starts the settle window.
    /// A transition while settling is ignored (the burst is coalesced), and
    /// the settle window's expiry re-arms detection.
    pub fn on_event(&mut self, ch: &mut TriggerChannel, ev: InputEvent) -> (emitted: bool)
        requires
            old(ch).wf(),
        ensures
            final(ch).wf(),
            final(self).phase() == monitor_step(old(self).phase(), ev),
            emitted == monitor_emits(old(self).phase(), ev),
            emitted ==> final(ch).pending() == pending_after_send(old(ch).pending()),
            emitted ==> final(ch).overflow_count() == overflows_after_send(
                old(ch).pending(),
                old(ch).overflow_count(),
            ),
            !emitted ==> final(ch).pending() == old(ch).pending() && final(ch).overflow_count()
                == old(ch).overflow_count(),
    {
        match ev {
            InputEvent::Transition => {
                match self.phase {
                    MonitorPhase::Armed => {
                        let _accepted = ch.try_send(Trigger);
                        self.phase = MonitorPhase::Settling;
                        true
                    },
                    MonitorPhase::Settling => false,
                }
            },
            InputEvent::SettleElapsed => {
                self.phase = MonitorPhase::Armed;
                false
            },
        }
    }
}

} // verus!
