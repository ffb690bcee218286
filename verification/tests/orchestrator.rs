use hvac_limpet::channel::{Trigger, TriggerChannel};
use hvac_limpet::orchestrator::{Orchestrator, OrchestratorPhase, RaceOutcome};
use hvac_limpet::transport::ReportOutcome;

#[test]
fn startup_reports_exactly_once() {
    let mut orch = Orchestrator::new();
    assert_eq!(orch.current_phase(), OrchestratorPhase::Startup);
    assert!(orch.startup());
    assert_eq!(orch.current_phase(), OrchestratorPhase::Reporting);
    // The baseline report happens once: a second startup changes nothing.
    assert!(!orch.startup());
    assert_eq!(orch.current_phase(), OrchestratorPhase::Reporting);
}

#[test]
fn each_race_resolution_reports_once() {
    let mut ch = TriggerChannel::new();
    let mut orch = Orchestrator::new();
    assert!(orch.startup());
    assert!(orch.complete(&mut ch, ReportOutcome::Delivered));
    assert!(orch.on_race(RaceOutcome::TriggerReceived));
    // A race resolution out of turn (a report is already in flight) starts
    // nothing.
    assert!(!orch.on_race(RaceOutcome::TriggerReceived));
    assert!(!orch.on_race(RaceOutcome::HeartbeatExpired));
    assert!(orch.complete(&mut ch, ReportOutcome::Delivered));
    assert!(orch.on_race(RaceOutcome::HeartbeatExpired));
}

#[test]
fn heartbeats_alone_report_once_each() {
    let mut ch = TriggerChannel::new();
    let mut orch = Orchestrator::new();
    let mut reports: u32 = 0;
    if orch.startup() {
        reports += 1;
    }
    assert!(orch.complete(&mut ch, ReportOutcome::Delivered));
    // Zero input activity: five heartbeat expiries, one report per each.
    for _ in 0..5 {
        if orch.on_race(RaceOutcome::HeartbeatExpired) {
            reports += 1;
        }
        assert!(orch.complete(&mut ch, ReportOutcome::Delivered));
    }
    assert_eq!(reports, 1 + 5);
}

#[test]
fn queued_backlog_drained_on_entering_race() {
    let mut ch = TriggerChannel::new();
    let mut orch = Orchestrator::new();
    assert!(orch.startup());
    // Triggers pile up while the report is in flight; completing it enters
    // the next race, which drains the stale backlog so no extra report
    // cycle fires for it.
    for _ in 0..4 {
        assert!(ch.try_send(Trigger));
    }
    assert!(orch.complete(&mut ch, ReportOutcome::Delivered));
    assert_eq!(ch.len(), 0);
    assert_eq!(orch.current_phase(), OrchestratorPhase::Idle);
}

#[test]
fn failed_report_does_not_stall_the_loop() {
    let mut ch = TriggerChannel::new();
    let mut orch = Orchestrator::new();
    assert!(orch.startup());
    // The report failed (unreachable endpoint): the orchestrator still
    // returns to the race and the next resolution reports again.
    assert!(orch.complete(&mut ch, ReportOutcome::RequestFailed));
    assert_eq!(orch.current_phase(), OrchestratorPhase::Idle);
    assert!(orch.on_race(RaceOutcome::TriggerReceived));
    // A malformed body fails the report too; the cycle still continues.
    assert!(orch.complete(&mut ch, ReportOutcome::BodyInvalid));
    assert!(orch.on_race(RaceOutcome::HeartbeatExpired));
    assert!(orch.complete(&mut ch, ReportOutcome::SendFailed));
    assert_eq!(orch.current_phase(), OrchestratorPhase::Idle);
}

#[test]
fn complete_out_of_turn_changes_nothing() {
    let mut ch = TriggerChannel::new();
    assert!(ch.try_send(Trigger));
    let mut orch = Orchestrator::new();
    // No report is in flight: completion is refused and the queue is kept.
    assert!(!orch.complete(&mut ch, ReportOutcome::Delivered));
    assert_eq!(ch.len(), 1);
    assert_eq!(orch.current_phase(), OrchestratorPhase::Startup);
}
