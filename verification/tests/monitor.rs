use hvac_limpet::channel::{Trigger, TriggerChannel};
use hvac_limpet::monitor::{EdgeMonitor, InputEvent, MonitorPhase};
use hvac_limpet::CHANNEL_CAPACITY;

#[test]
fn first_transition_emits_and_settles() {
    let mut ch = TriggerChannel::new();
    let mut mon = EdgeMonitor::new();
    assert_eq!(mon.current_phase(), MonitorPhase::Armed);
    assert!(mon.on_event(&mut ch, InputEvent::Transition));
    assert_eq!(mon.current_phase(), MonitorPhase::Settling);
    assert_eq!(ch.len(), 1);
}

#[test]
fn burst_within_settle_window_coalesces() {
    let mut ch = TriggerChannel::new();
    let mut mon = EdgeMonitor::new();
    // Several lines change "at the same time": only the first transition,
    // which wins the race, emits a trigger; the rest fall in the settle
    // window and are folded into it.
    assert!(mon.on_event(&mut ch, InputEvent::Transition));
    assert!(!mon.on_event(&mut ch, InputEvent::Transition));
    assert!(!mon.on_event(&mut ch, InputEvent::Transition));
    assert!(!mon.on_event(&mut ch, InputEvent::Transition));
    assert_eq!(ch.len(), 1);
    assert_eq!(ch.overflows(), 0);
}

#[test]
fn settle_elapsed_rearms_detection() {
    let mut ch = TriggerChannel::new();
    let mut mon = EdgeMonitor::new();
    assert!(mon.on_event(&mut ch, InputEvent::Transition));
    assert!(!mon.on_event(&mut ch, InputEvent::Transition));
    assert!(!mon.on_event(&mut ch, InputEvent::SettleElapsed));
    assert_eq!(mon.current_phase(), MonitorPhase::Armed);
    assert!(mon.on_event(&mut ch, InputEvent::Transition));
    assert_eq!(ch.len(), 2);
}

#[test]
fn transition_on_full_channel_never_blocks() {
    let mut ch = TriggerChannel::new();
    let mut mon = EdgeMonitor::new();
    for _ in 0..CHANNEL_CAPACITY {
        assert!(ch.try_send(Trigger));
    }
    // The monitor still services the transition — the producer is never
    // blocked — but the trigger is dropped and the overflow recorded.
    assert!(mon.on_event(&mut ch, InputEvent::Transition));
    assert_eq!(mon.current_phase(), MonitorPhase::Settling);
    assert_eq!(ch.len(), CHANNEL_CAPACITY);
    assert_eq!(ch.overflows(), 1);
}

#[test]
fn settle_elapsed_while_armed_changes_nothing() {
    let mut ch = TriggerChannel::new();
    let mut mon = EdgeMonitor::new();
    assert!(!mon.on_event(&mut ch, InputEvent::SettleElapsed));
    assert_eq!(mon.current_phase(), MonitorPhase::Armed);
    assert_eq!(ch.len(), 0);
}
