//! The components seen together, with the kernel's part played by the test.

use morpheus::common::{EscalationPolicy, RuntimeMode, SchedulerMode, WorkerState, YieldReason};
use morpheus::scb::MorpheusScb;

#[test]
fn test_worker_lifecycle_transitions() {
    let mut scb = MorpheusScb::new(true);

    assert_eq!(
        scb.worker_state,
        WorkerState::Init as u32,
        "New SCB should be in INIT state"
    );

    scb.worker_state = WorkerState::Registered as u32;
    assert!(!WorkerState::Registered.can_receive_hints());

    scb.worker_state = WorkerState::Running as u32;
    assert!(WorkerState::Running.can_receive_hints());
    assert!(WorkerState::Running.can_escalate());

    scb.worker_state = WorkerState::Quiescing as u32;
    assert!(!WorkerState::Quiescing.can_receive_hints());
    assert!(!WorkerState::Quiescing.can_escalate());

    scb.worker_state = WorkerState::Dead as u32;
    assert!(!WorkerState::Dead.can_receive_hints());
    assert!(!WorkerState::Dead.can_escalate());
    assert_eq!(scb.worker_state, 4);
}

#[test]
fn test_escalation_gating() {
    let mut scb = MorpheusScb::new(true);

    scb.worker_state = WorkerState::Running as u32;
    scb.escalation_policy = EscalationPolicy::ThreadKick as u32;
    scb.escapable = 1;
    scb.is_in_critical_section = 0;
    scb.preempt_seq = 5;
    scb.last_ack_seq = 3;

    let worker_state = WorkerState::try_from(scb.worker_state).unwrap();
    let policy = EscalationPolicy::try_from(scb.escalation_policy).unwrap();
    let escapable = scb.escapable == 1;
    let in_critical = scb.is_in_critical_section == 1;
    let preempt = scb.preempt_seq;
    let acked = scb.last_ack_seq;

    assert!(worker_state.can_escalate(), "Worker should be escalatable");
    assert!(
        policy != EscalationPolicy::Off,
        "Policy should allow escalation"
    );
    assert!(escapable, "Worker should be escapable");
    assert!(!in_critical, "Worker should not be in critical section");
    assert!(preempt > acked, "Unacknowledged hints should exist");
    assert!(scb.can_escalate());
}

#[test]
fn test_critical_section_blocks_escalation() {
    let mut scb = MorpheusScb::new(true);

    scb.worker_state = WorkerState::Running as u32;
    scb.escalation_policy = EscalationPolicy::ThreadKick as u32;
    scb.escapable = 1;
    scb.preempt_seq = 10;
    scb.last_ack_seq = 0;

    scb.is_in_critical_section = 1;

    let in_critical = scb.is_in_critical_section == 1;
    assert!(in_critical, "Critical section flag should be set");
    assert!(!scb.can_escalate());

    scb.is_in_critical_section = 0;
    let in_critical = scb.is_in_critical_section == 1;
    assert!(!in_critical, "Critical section flag should be cleared");
    assert!(scb.can_escalate());
}

#[test]
fn test_yield_acknowledgment() {
    let mut scb = MorpheusScb::new(true);

    scb.preempt_seq = 5;
    scb.last_ack_seq = 0;

    let pending = scb.preempt_seq > scb.last_ack_seq;
    assert!(pending, "Should have pending hints");

    let current_seq = scb.preempt_seq;
    scb.last_ack_seq = current_seq;
    scb.last_yield_reason = YieldReason::Hint as u32;

    let pending = scb.preempt_seq > scb.last_ack_seq;
    assert!(!pending, "Should have no pending hints after ack");

    let reason = YieldReason::try_from(scb.last_yield_reason).unwrap();
    assert_eq!(reason, YieldReason::Hint);
}

#[test]
fn test_runtime_mode_transitions() {
    let mode = RuntimeMode::Deterministic;
    assert!(!mode.should_yield_eagerly());

    let mode = RuntimeMode::Pressured;
    assert!(!mode.should_yield_eagerly());

    let mode = RuntimeMode::Defensive;
    assert!(mode.should_yield_eagerly());
}

#[test]
fn test_scheduler_mode_observer_only_default() {
    let mode = SchedulerMode::default();
    assert_eq!(
        mode,
        SchedulerMode::ObserverOnly,
        "Default scheduler mode should be ObserverOnly for safety"
    );
}

#[test]
fn test_python_workers_not_escapable() {
    let python_scb = MorpheusScb::new(false);
    assert_eq!(
        python_scb.escapable, 0,
        "Python workers must default to escapable=false for GIL safety"
    );
}

#[test]
fn test_rust_workers_escapable() {
    let rust_scb = MorpheusScb::new(true);
    assert_eq!(
        rust_scb.escapable, 1,
        "Rust workers should default to escapable=true"
    );
}
