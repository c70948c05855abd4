//! The enumerations, the hint record and the layout of the control block.

use morpheus::common::{
    EscalationPolicy, HintReason, MorpheusHint, RuntimeMode, SchedulerMode, WorkerState,
    YieldReason,
};
use morpheus::config::{DEFAULT_SLICE_NS, GRACE_PERIOD_NS, MAX_WORKERS, RINGBUF_SIZE};
use morpheus::error::Error;
use morpheus::layout::{
    slot_offset, BUDGET_REMAINING_NS_OFFSET, ESCALATION_POLICY_OFFSET, ESCAPABLE_OFFSET,
    HINT_LOSS_COUNT_OFFSET, IS_IN_CRITICAL_SECTION_OFFSET, KERNEL_PRESSURE_LEVEL_OFFSET,
    LAST_ACK_SEQ_OFFSET, LAST_ESCALATION_NS_OFFSET, LAST_YIELD_REASON_OFFSET,
    PREEMPT_SEQ_OFFSET, RESERVATION_TOKEN_OFFSET, RINGBUF_OVERFLOW_COUNT_OFFSET,
    RUNTIME_PRIORITY_OFFSET, RUNTIME_REGION_OFFSET, SCB_ALIGN, SCB_SIZE, WORKER_STATE_OFFSET,
};
use morpheus::map_names::{HINT_RINGBUF, SCB_MAP, WORKER_TID_MAP};
use morpheus::scb::MorpheusScb;
use morpheus::wire::ByteOrder;

#[test]
fn test_scb_size_and_alignment() {
    assert_eq!(SCB_SIZE, 128);
    assert_eq!(SCB_ALIGN, 64);
    let image = MorpheusScb::new(true).to_bytes(ByteOrder::native());
    assert_eq!(image.len(), 128);
    assert_eq!(SCB_SIZE % SCB_ALIGN, 0);
}

#[test]
fn test_hint_reason_conversion() {
    assert_eq!(HintReason::try_from(1), Ok(HintReason::Budget));
    assert_eq!(HintReason::try_from(5), Err(()));
}

#[test]
fn hint_reason_codes() {
    assert_eq!(HintReason::try_from(0), Err(()));
    assert_eq!(HintReason::try_from(2), Ok(HintReason::Pressure));
    assert_eq!(HintReason::try_from(3), Ok(HintReason::Imbalance));
    assert_eq!(HintReason::try_from(4), Ok(HintReason::Deadline));
    assert_eq!(HintReason::try_from(u32::MAX), Err(()));
    assert_eq!(HintReason::Budget.to_u32(), 1);
    assert_eq!(HintReason::Pressure.to_u32(), 2);
    assert_eq!(HintReason::Imbalance.to_u32(), 3);
    assert_eq!(HintReason::Deadline.to_u32(), 4);
}

#[test]
fn every_enumeration_round_trips_and_rejects_unknown_codes() {
    for code in 0..8u32 {
        match WorkerState::try_from(code) {
            Ok(state) => assert_eq!(state.to_u32(), code),
            Err(()) => assert!(code > 4),
        }
        match YieldReason::try_from(code) {
            Ok(reason) => assert_eq!(reason.to_u32(), code),
            Err(()) => assert!(code > 5),
        }
        match EscalationPolicy::try_from(code) {
            Ok(policy) => assert_eq!(policy.to_u32(), code),
            Err(()) => assert!(code > 3),
        }
        match RuntimeMode::try_from(code) {
            Ok(mode) => assert_eq!(mode.to_u32(), code),
            Err(()) => assert!(code > 2),
        }
        match SchedulerMode::try_from(code) {
            Ok(mode) => assert_eq!(mode.to_u32(), code),
            Err(()) => assert!(code > 1),
        }
    }
    assert_eq!(WorkerState::try_from(5), Err(()));
    assert_eq!(YieldReason::try_from(6), Err(()));
    assert_eq!(EscalationPolicy::try_from(4), Err(()));
    assert_eq!(RuntimeMode::try_from(3), Err(()));
    assert_eq!(SchedulerMode::try_from(2), Err(()));
    assert_eq!(SchedulerMode::try_from(1), Ok(SchedulerMode::Enforced));
    assert_eq!(EscalationPolicy::try_from(2), Ok(EscalationPolicy::CgroupThrottle));
    assert_eq!(EscalationPolicy::try_from(3), Ok(EscalationPolicy::Hybrid));
    assert_eq!(YieldReason::try_from(5), Ok(YieldReason::EscalationRecovery));
}

#[test]
fn worker_state_allows_only_the_next_state() {
    let states = [
        WorkerState::Init,
        WorkerState::Registered,
        WorkerState::Running,
        WorkerState::Quiescing,
        WorkerState::Dead,
    ];
    for (i, from) in states.iter().enumerate() {
        for (j, to) in states.iter().enumerate() {
            assert_eq!(from.can_transition_to(*to), j == i + 1);
        }
    }
}

#[test]
fn only_running_workers_take_hints_and_escalation() {
    for state in [
        WorkerState::Init,
        WorkerState::Registered,
        WorkerState::Quiescing,
        WorkerState::Dead,
    ] {
        assert!(!state.can_receive_hints());
        assert!(!state.can_escalate());
    }
    assert!(WorkerState::Running.can_receive_hints());
    assert!(WorkerState::Running.can_escalate());
}

#[test]
fn runtime_mode_steps() {
    assert!(RuntimeMode::Deterministic.can_transition_to(RuntimeMode::Pressured));
    assert!(RuntimeMode::Pressured.can_transition_to(RuntimeMode::Defensive));
    assert!(RuntimeMode::Defensive.can_transition_to(RuntimeMode::Pressured));
    assert!(!RuntimeMode::Deterministic.can_transition_to(RuntimeMode::Defensive));
    assert!(!RuntimeMode::Pressured.can_transition_to(RuntimeMode::Deterministic));
    assert!(!RuntimeMode::Defensive.can_transition_to(RuntimeMode::Deterministic));
    assert!(!RuntimeMode::Defensive.can_transition_to(RuntimeMode::Defensive));
}

#[test]
fn hint_reason_of_a_record() {
    let mut hint = MorpheusHint { seq: 9, reason: 3, target_tid: 77, deadline_ns: 5 };
    assert_eq!(hint.hint_reason(), Some(HintReason::Imbalance));
    hint.reason = 0;
    assert_eq!(hint.hint_reason(), None);
    hint.reason = 5;
    assert_eq!(hint.hint_reason(), None);
}

#[test]
fn configuration_constants() {
    assert_eq!(MAX_WORKERS, 1024);
    assert_eq!(DEFAULT_SLICE_NS, 5_000_000);
    assert_eq!(GRACE_PERIOD_NS, 100_000_000);
    assert_eq!(RINGBUF_SIZE, 262_144);
    assert_eq!(SCB_MAP, "scb_map");
    assert_eq!(HINT_RINGBUF, "hint_ringbuf");
    assert_eq!(WORKER_TID_MAP, "worker_tid_map");
}

#[test]
fn field_offsets() {
    assert_eq!(PREEMPT_SEQ_OFFSET, 0);
    assert_eq!(BUDGET_REMAINING_NS_OFFSET, 8);
    assert_eq!(KERNEL_PRESSURE_LEVEL_OFFSET, 16);
    assert_eq!(WORKER_STATE_OFFSET, 20);
    assert_eq!(HINT_LOSS_COUNT_OFFSET, 24);
    assert_eq!(RINGBUF_OVERFLOW_COUNT_OFFSET, 28);
    assert_eq!(LAST_ESCALATION_NS_OFFSET, 32);
    assert_eq!(RUNTIME_REGION_OFFSET, 64);
    assert_eq!(IS_IN_CRITICAL_SECTION_OFFSET, 64);
    assert_eq!(ESCAPABLE_OFFSET, 68);
    assert_eq!(LAST_ACK_SEQ_OFFSET, 72);
    assert_eq!(RUNTIME_PRIORITY_OFFSET, 80);
    assert_eq!(LAST_YIELD_REASON_OFFSET, 84);
    assert_eq!(RESERVATION_TOKEN_OFFSET, 88);
    assert_eq!(ESCALATION_POLICY_OFFSET, 96);
}

fn sample_scb() -> MorpheusScb {
    MorpheusScb {
        preempt_seq: 0x0102_0304_0506_0708,
        budget_remaining_ns: 5_000_000,
        kernel_pressure_level: 42,
        worker_state: 2,
        hint_loss_count: 7,
        ringbuf_overflow_count: 9,
        last_escalation_ns: 0xAABB_CCDD_EEFF_0011,
        is_in_critical_section: 1,
        escapable: 1,
        last_ack_seq: 0x0102_0304_0506_0707,
        runtime_priority: 999,
        last_yield_reason: 4,
        reservation_token: 0xDEAD_BEEF,
        escalation_policy: 3,
    }
}

#[test]
fn scb_image_places_each_field_at_its_offset() {
    let scb = sample_scb();
    let image = scb.to_bytes(ByteOrder::Little);
    assert_eq!(image.len(), 128);
    assert_eq!(image[0..8], 0x0102_0304_0506_0708u64.to_le_bytes());
    assert_eq!(image[8..16], 5_000_000u64.to_le_bytes());
    assert_eq!(image[16..20], 42u32.to_le_bytes());
    assert_eq!(image[20..24], 2u32.to_le_bytes());
    assert_eq!(image[24..28], 7u32.to_le_bytes());
    assert_eq!(image[28..32], 9u32.to_le_bytes());
    assert_eq!(image[32..40], 0xAABB_CCDD_EEFF_0011u64.to_le_bytes());
    assert!(image[40..64].iter().all(|b| *b == 0));
    assert_eq!(image[64..68], 1u32.to_le_bytes());
    assert_eq!(image[68..72], 1u32.to_le_bytes());
    assert_eq!(image[72..80], 0x0102_0304_0506_0707u64.to_le_bytes());
    assert_eq!(image[80..84], 999u32.to_le_bytes());
    assert_eq!(image[84..88], 4u32.to_le_bytes());
    assert_eq!(image[88..96], 0xDEAD_BEEFu64.to_le_bytes());
    assert_eq!(image[96..100], 3u32.to_le_bytes());
    assert!(image[100..128].iter().all(|b| *b == 0));

    let big = scb.to_bytes(ByteOrder::Big);
    assert_eq!(big[0..8], 0x0102_0304_0506_0708u64.to_be_bytes());
    assert_eq!(big[80..84], 999u32.to_be_bytes());
}

#[test]
fn scb_image_round_trips() {
    let scb = sample_scb();
    for order in [ByteOrder::Little, ByteOrder::Big] {
        let mut image = scb.to_bytes(order);
        assert_eq!(MorpheusScb::from_bytes(&image, order), Some(scb));
        image.extend_from_slice(&[0xFF; 16]);
        assert_eq!(MorpheusScb::from_bytes(&image, order), Some(scb));
        assert_eq!(MorpheusScb::from_bytes(&image[..127], order), None);
    }
    assert_eq!(MorpheusScb::from_bytes(&[], ByteOrder::Little), None);
}

#[test]
fn slot_offsets() {
    assert_eq!(slot_offset(0).unwrap(), 0);
    assert_eq!(slot_offset(1).unwrap(), 128);
    assert_eq!(slot_offset(1023).unwrap(), 130_944);
    assert!(matches!(slot_offset(1024), Err(Error::InvalidWorker(1024))));
    assert!(matches!(slot_offset(u32::MAX), Err(Error::InvalidWorker(u32::MAX))));
}

#[test]
fn new_scb_values() {
    let scb = MorpheusScb::new(false);
    assert_eq!(scb.preempt_seq, 0);
    assert_eq!(scb.budget_remaining_ns, 0);
    assert_eq!(scb.kernel_pressure_level, 0);
    assert_eq!(scb.worker_state, 0);
    assert_eq!(scb.is_in_critical_section, 0);
    assert_eq!(scb.escapable, 0);
    assert_eq!(scb.last_ack_seq, 0);
    assert_eq!(scb.runtime_priority, 500);
    assert_eq!(scb.last_yield_reason, 0);
    assert_eq!(scb.reservation_token, 0);
    assert_eq!(scb.escalation_policy, 0);
    assert_eq!(MorpheusScb::default(), MorpheusScb::new(true));
    assert_eq!(scb.state(), Some(WorkerState::Init));
}
