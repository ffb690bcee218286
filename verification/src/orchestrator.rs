//! The orchestrator: the main reporting cycle.
//!
//! On startup it performs one report unconditionally — a baseline snapshot
//! before any activity is observed. From then on it loops forever: it races
//! a trigger arrival against the heartbeat timer
//! ([`crate::HEARTBEAT_SECONDS`]) and performs exactly one report when
//! either resolves, whichever it was. A trigger therefore bounds the latency
//! from an observed change to a report attempt, and the heartbeat bounds the
//! time between reports even with no activity at all — and doubles as the
//! retry for a failed report, since a report's outcome never changes the
//! cycle. On entering a new race the orchestrator drains any backlog of
//! queued triggers: pending triggers are an idempotent signal, and the
//! report just performed already covers them.
//!
//! The race itself — the dual await — runs in the surrounding task; its
//! resolution is handed in as a [`RaceOutcome`], and this module decides
//! what each one does.

use vstd::prelude::*;

use crate::channel::TriggerChannel;
use crate::transport::ReportOutcome;

verus! {

/// Phase of the orchestrator.
#[derive(Clone, Copy, Debug, PartialEq, Eq, Structural)]
pub enum OrchestratorPhase {
    /// Process start: the baseline report has not been issued yet.
    Startup,
    /// Waiting on the race of trigger arrival against heartbeat expiry.
    Idle,
    /// A report exchange is in flight.
    Reporting,
}

/// Which arm of the race resolved.
#[derive(Clone, Copy, Debug, PartialEq, Eq, Structural)]
pub enum RaceOutcome {
    /// A trigger was dequeued: some watched input changed.
    TriggerReceived,
    /// The heartbeat timer expired with no trigger.
    HeartbeatExpired,
}

/// The orchestrator's abstract state: its phase and how many reports it has
/// started.
pub struct OrchModel {
    pub phase: OrchestratorPhase,
    pub reports: nat,
}

/// The state a fresh orchestrator models.
pub open spec fn initial_model() -> OrchModel {
    OrchModel { phase: OrchestratorPhase::Startup, reports: 0 }
}

/// The startup step: from `Startup`, issue the one unconditional baseline
/// report and move to `Reporting`. Anywhere else it changes nothing: the
/// baseline report happens exactly once.
pub open spec fn startup_step(m: OrchModel) -> OrchModel {
    if m.phase is Startup {
        OrchModel { phase: OrchestratorPhase::Reporting, reports: m.reports + 1 }
    } else {
        m
    }
}

/// A race resolution: from `Idle`, exactly one report starts, whichever arm
/// resolved — and no matter how many triggers were queued behind the one
/// received. Anywhere else it changes nothing.
pub open spec fn race_step(m: OrchModel, r: RaceOutcome) -> OrchModel {
    if m.phase is Idle {
        OrchModel { phase: OrchestratorPhase::Reporting, reports: m.reports + 1 }
    } else {
        m
    }
}

/// A report's completion: from `Reporting`, back to `Idle` whatever the
/// outcome — a failed report and a delivered one re-arm the race alike.
pub open spec fn complete_step(m: OrchModel, outcome: ReportOutcome) -> OrchModel {
    if m.phase is Reporting {
        OrchModel { phase: OrchestratorPhase::Idle, reports: m.reports }
    } else {
        m
    }
}

/// One full cycle from the race: a resolution, the report it starts, and
/// that report's completion.
pub open spec fn cycle_step(m: OrchModel, r: RaceOutcome, outcome: ReportOutcome) -> OrchModel {
    complete_step(race_step(m, r), outcome)
}

/// The orchestrator after a whole run of cycles, each a race resolution
/// paired with how its report ended.
pub open spec fn run_cycles(m: OrchModel, cycles: Seq<(RaceOutcome, ReportOutcome)>) -> OrchModel
    decreases cycles.len(),
{
    if cycles.len() == 0 {
        m
    } else {
        run_cycles(cycle_step(m, cycles[0].0, cycles[0].1), cycles.drop_first())
    }
}

/// Exactly one report per race resolution: over any run of cycles from an
/// idle orchestrator — triggers or heartbeats, reports delivered or failed —
/// the number of reports grows by exactly the number of resolutions, and the
/// orchestrator is idle again at the end.
pub proof fn lemma_one_report_per_resolution(
    m: OrchModel,
    cycles: Seq<(RaceOutcome, ReportOutcome)>,
)
    requires
        m.phase is Idle,
    ensures
        run_cycles(m, cycles).phase is Idle,
        run_cycles(m, cycles).reports == m.reports + cycles.len(),
    decreases cycles.len(),
{
    if cycles.len() > 0 {
        lemma_one_report_per_resolution(cycle_step(m, cycles[0].0, cycles[0].1), cycles.drop_first());
    }
}

/// With zero input activity, one report at process start and then exactly
/// one per heartbeat expiry, indefinitely: after the baseline report and
/// `n` heartbeat-resolved cycles, exactly `1 + n` reports have been issued.
pub proof fn lemma_quiescent_heartbeat_schedule(
    first: ReportOutcome,
    cycles: Seq<(RaceOutcome, ReportOutcome)>,
)
    requires
        forall|i: int| 0 <= i < cycles.len() ==> cycles[i].0 is HeartbeatExpired,
    ensures
        run_cycles(complete_step(startup_step(initial_model()), first), cycles).reports == 1
            + cycles.len(),
{
    lemma_one_report_per_resolution(complete_step(startup_step(initial_model()), first), cycles);
}

/// A trigger-resolved race produces exactly one report — not one per queued
/// trigger — and leaves the orchestrator idle for the next race.
pub proof fn lemma_trigger_cycle_single_report(m: OrchModel, outcome: ReportOutcome)
    requires
        m.phase is Idle,
    ensures
        cycle_step(m, RaceOutcome::TriggerReceived, outcome).reports == m.reports + 1,
        cycle_step(m, RaceOutcome::TriggerReceived, outcome).phase is Idle,
{
}

/// A failed report never wedges the loop: whatever outcome a report in
/// flight ends with, the orchestrator returns to `Idle`, and the next race
/// resolution — trigger or heartbeat — starts another report.
pub proof fn lemma_failure_does_not_stall(m: OrchModel, outcome: ReportOutcome, r: RaceOutcome)
    requires
        m.phase is Reporting,
    ensures
        complete_step(m, outcome).phase is Idle,
        race_step(complete_step(m, outcome), r).reports == m.reports + 1,
{
}

/// The orchestrator's concrete state: its phase, with the report count kept
/// as ghost history so the contracts can count reports exactly.
pub struct Orchestrator {
    phase: OrchestratorPhase,
    reports: Ghost<nat>,
}

impl Orchestrator {
    pub closed spec fn model(self) -> OrchModel {
        OrchModel { phase: self.phase, reports: self.reports@ }
    }

    pub open spec fn phase(self) -> OrchestratorPhase {
        self.model().phase
    }

    pub open spec fn reports_started(self) -> nat {
        self.model().reports
    }

    pub fn new() -> (o: Orchestrator)
        ensures
            o.model() == initial_model(),
    {
        Orchestrator { phase: OrchestratorPhase::Startup, reports: Ghost(0) }
    }

    pub fn current_phase(&self) -> (p: OrchestratorPhase)
        ensures
            p == self.phase(),
    {
        self.phase
    }

    /// Issue the one unconditional baseline report at process start. Returns
    /// whether a report was started: true exactly once, from `Startup`.
    pub fn startup(&mut self) -> (started: bool)
        ensures
            final(self).model() == startup_step(old(self).model()),
            started == (old(self).phase() is Startup),
    {
        match self.phase {
            OrchestratorPhase::Startup => {
                self.phase = OrchestratorPhase::Reporting;
                proof {
                    self.reports@ = self.reports@ + 1;
                }
                true
            },
            _ => false,
        }
    }

    /// Handle a race resolution. From `Idle`, exactly one report starts,
    /// whichever arm resolved; out of turn, nothing changes and no report
    /// starts.
    pub fn on_race(&mut self, r: RaceOutcome) -> (started: bool)
        ensures
            final(self).model() == race_step(old(self).model(), r),
            started == (old(self).phase() is Idle),
    {
        match self.phase {
            OrchestratorPhase::Idle => {
                self.phase = OrchestratorPhase::Reporting;
                proof {
                    self.reports@ = self.reports@ + 1;
                }
                true
            },
            _ => false,
        }
    }

    /// Record the in-flight report as finished, successfully or not, and
    /// enter the next race: any backlog of queued triggers is drained — the
    /// report just performed already covers them — and the orchestrator is
    /// idle again whatever the outcome.
    pub fn complete(&mut self, ch: &mut TriggerChannel, outcome: ReportOutcome) -> (accepted: bool)
        requires
            old(ch).wf(),
        ensures
            final(ch).wf(),
            final(self).model() == complete_step(old(self).model(), outcome),
            accepted == (old(self).phase() is Reporting),
            final(ch).overflow_count() == old(ch).overflow_count(),
            accepted ==> final(ch).pending() == 0,
            !accepted ==> final(ch).pending() == old(ch).pending(),
    {
        match self.phase {
            OrchestratorPhase::Reporting => {
                self.phase = OrchestratorPhase::Idle;
                let _backlog = ch.drain();
                true
            },
            _ => false,
        }
    }
}

} // verus!
