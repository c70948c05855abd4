//! The binary layout of the control block.
//!
//! A control block is 128 bytes long and aligned to 64 bytes. The kernel's
//! half fills the first 64 bytes, the worker's half the second, so that the
//! two sides never write to the same cache line. The map of control blocks is
//! an array of such blocks, indexed by worker id.

use vstd::prelude::*;
use crate::config::MAX_WORKERS;
use crate::error::Error;
use crate::scb::MorpheusScb;
use crate::wire::{bytes_of, read_u32, read_u64, u32_at, u64_at, write_u32, write_u64, ByteOrder};

verus! {

/// Size of a control block in bytes.
pub const SCB_SIZE: usize = 128;

/// Alignment of a control block in bytes.
pub const SCB_ALIGN: usize = 64;

/// Offset of the worker's half.
pub const RUNTIME_REGION_OFFSET: usize = 64;

/// Offset of `preempt_seq`.
pub const PREEMPT_SEQ_OFFSET: usize = 0;

/// Offset of `budget_remaining_ns`.
pub const BUDGET_REMAINING_NS_OFFSET: usize = 8;

/// Offset of `kernel_pressure_level`.
pub const KERNEL_PRESSURE_LEVEL_OFFSET: usize = 16;

/// Offset of `worker_state`.
pub const WORKER_STATE_OFFSET: usize = 20;

/// Offset of `hint_loss_count`.
pub const HINT_LOSS_COUNT_OFFSET: usize = 24;

/// Offset of `ringbuf_overflow_count`.
pub const RINGBUF_OVERFLOW_COUNT_OFFSET: usize = 28;

/// Offset of `last_escalation_ns`.
pub const LAST_ESCALATION_NS_OFFSET: usize = 32;

/// Offset of `is_in_critical_section`.
pub const IS_IN_CRITICAL_SECTION_OFFSET: usize = 64;

/// Offset of `escapable`.
pub const ESCAPABLE_OFFSET: usize = 68;

/// Offset of `last_ack_seq`.
pub const LAST_ACK_SEQ_OFFSET: usize = 72;

/// Offset of `runtime_priority`.
pub const RUNTIME_PRIORITY_OFFSET: usize = 80;

/// Offset of `last_yield_reason`.
pub const LAST_YIELD_REASON_OFFSET: usize = 84;

/// Offset of `reservation_token`.
pub const RESERVATION_TOKEN_OFFSET: usize = 88;

/// Offset of `escalation_policy`.
pub const ESCALATION_POLICY_OFFSET: usize = 96;

/// `count` bytes of value zero.
pub open spec fn zeros(count: nat) -> Seq<u8> {
    Seq::new(count, |i: int| 0u8)
}

/// The control block that the first 128 bytes of `bytes` hold.
pub open spec fn scb_at(bytes: Seq<u8>, order: ByteOrder) -> MorpheusScb {
    MorpheusScb {
        preempt_seq: u64_at(bytes, PREEMPT_SEQ_OFFSET as int, order) as u64,
        budget_remaining_ns: u64_at(bytes, BUDGET_REMAINING_NS_OFFSET as int, order) as u64,
        kernel_pressure_level: u32_at(bytes, KERNEL_PRESSURE_LEVEL_OFFSET as int, order) as u32,
        worker_state: u32_at(bytes, WORKER_STATE_OFFSET as int, order) as u32,
        hint_loss_count: u32_at(bytes, HINT_LOSS_COUNT_OFFSET as int, order) as u32,
        ringbuf_overflow_count: u32_at(bytes, RINGBUF_OVERFLOW_COUNT_OFFSET as int, order) as u32,
        last_escalation_ns: u64_at(bytes, LAST_ESCALATION_NS_OFFSET as int, order) as u64,
        is_in_critical_section: u32_at(bytes, IS_IN_CRITICAL_SECTION_OFFSET as int, order) as u32,
        escapable: u32_at(bytes, ESCAPABLE_OFFSET as int, order) as u32,
        last_ack_seq: u64_at(bytes, LAST_ACK_SEQ_OFFSET as int, order) as u64,
        runtime_priority: u32_at(bytes, RUNTIME_PRIORITY_OFFSET as int, order) as u32,
        last_yield_reason: u32_at(bytes, LAST_YIELD_REASON_OFFSET as int, order) as u32,
        reservation_token: u64_at(bytes, RESERVATION_TOKEN_OFFSET as int, order) as u64,
        escalation_policy: u32_at(bytes, ESCALATION_POLICY_OFFSET as int, order) as u32,
    }
}

/// The 128 bytes that hold `scb`: each field at its offset, every reserved
/// byte zero.
pub open spec fn scb_bytes(scb: MorpheusScb, order: ByteOrder) -> Seq<u8> {
    bytes_of(scb.preempt_seq as int, 8, order) + bytes_of(scb.budget_remaining_ns as int, 8, order)
        + bytes_of(scb.kernel_pressure_level as int, 4, order) + bytes_of(
        scb.worker_state as int,
        4,
        order,
    ) + bytes_of(scb.hint_loss_count as int, 4, order) + bytes_of(
        scb.ringbuf_overflow_count as int,
        4,
        order,
    ) + bytes_of(scb.last_escalation_ns as int, 8, order) + zeros(24) + bytes_of(
        scb.is_in_critical_section as int,
        4,
        order,
    ) + bytes_of(scb.escapable as int, 4, order) + bytes_of(scb.last_ack_seq as int, 8, order)
        + bytes_of(scb.runtime_priority as int, 4, order) + bytes_of(
        scb.last_yield_reason as int,
        4,
        order,
    ) + bytes_of(scb.reservation_token as int, 8, order) + bytes_of(
        scb.escalation_policy as int,
        4,
        order,
    ) + zeros(28)
}

/// Offset of the control block of `worker_id` in the map of control blocks.
///
/// Fails with `InvalidWorker` exactly when `worker_id` is no index into the
/// map.
pub fn slot_offset(worker_id: u32) -> (offset: Result<u64, Error>)
    ensures
        offset is Ok <==> worker_id < MAX_WORKERS,
        offset matches Ok(at) ==> at == worker_id * SCB_SIZE && at % (SCB_ALIGN as u64) == 0,
        offset matches Err(error) ==> error == Error::InvalidWorker(worker_id),
{
    if worker_id >= MAX_WORKERS {
        return Err(Error::InvalidWorker(worker_id));
    }
    let offset = (worker_id as u64) * 128;
    assert(offset % 64 == 0) by {
        assert(offset == 64 * (2 * worker_id));
    }
    Ok(offset)
}

/// Appends `count` bytes of value zero.
fn write_zeros(out: &mut Vec<u8>, count: usize)
    ensures
        final(out)@ == old(out)@ + zeros(count as nat),
{
    let mut written: usize = 0;
    assert(out@ =~= old(out)@ + zeros(0));
    while written < count
        invariant
            written <= count,
            out@ == old(out)@ + zeros(written as nat),
        decreases count - written,
    {
        out.push(0);
        written = written + 1;
        assert(out@ =~= old(out)@ + zeros(written as nat));
    }
}

impl MorpheusScb {
    /// Reads a control block from the head of `data`. A payload shorter than
    /// a control block holds none.
    pub fn from_bytes(data: &[u8], order: ByteOrder) -> (scb: Option<MorpheusScb>)
        ensures
            scb is Some <==> data.len() >= SCB_SIZE,
            scb matches Some(block) ==> block == scb_at(data@, order),
    {
        if data.len() < SCB_SIZE {
            return None;
        }
        Some(
            MorpheusScb {
                preempt_seq: read_u64(data, PREEMPT_SEQ_OFFSET, order),
                budget_remaining_ns: read_u64(data, BUDGET_REMAINING_NS_OFFSET, order),
                kernel_pressure_level: read_u32(data, KERNEL_PRESSURE_LEVEL_OFFSET, order),
                worker_state: read_u32(data, WORKER_STATE_OFFSET, order),
                hint_loss_count: read_u32(data, HINT_LOSS_COUNT_OFFSET, order),
                ringbuf_overflow_count: read_u32(data, RINGBUF_OVERFLOW_COUNT_OFFSET, order),
                last_escalation_ns: read_u64(data, LAST_ESCALATION_NS_OFFSET, order),
                is_in_critical_section: read_u32(data, IS_IN_CRITICAL_SECTION_OFFSET, order),
                escapable: read_u32(data, ESCAPABLE_OFFSET, order),
                last_ack_seq: read_u64(data, LAST_ACK_SEQ_OFFSET, order),
                runtime_priority: read_u32(data, RUNTIME_PRIORITY_OFFSET, order),
                last_yield_reason: read_u32(data, LAST_YIELD_REASON_OFFSET, order),
                reservation_token: read_u64(data, RESERVATION_TOKEN_OFFSET, order),
                escalation_policy: read_u32(data, ESCALATION_POLICY_OFFSET, order),
            },
        )
    }

    /// Writes the control block as its 128 bytes.
    pub fn to_bytes(&self, order: ByteOrder) -> (bytes: Vec<u8>)
        ensures
            bytes@ == scb_bytes(*self, order),
            bytes.len() == SCB_SIZE,
    {
        let mut bytes: Vec<u8> = Vec::new();
        write_u64(&mut bytes, self.preempt_seq, order);
        write_u64(&mut bytes, self.budget_remaining_ns, order);
        write_u32(&mut bytes, self.kernel_pressure_level, order);
        write_u32(&mut bytes, self.worker_state, order);
        write_u32(&mut bytes, self.hint_loss_count, order);
        write_u32(&mut bytes, self.ringbuf_overflow_count, order);
        write_u64(&mut bytes, self.last_escalation_ns, order);
        write_zeros(&mut bytes, 24);
        write_u32(&mut bytes, self.is_in_critical_section, order);
        write_u32(&mut bytes, self.escapable, order);
        write_u64(&mut bytes, self.last_ack_seq, order);
        write_u32(&mut bytes, self.runtime_priority, order);
        write_u32(&mut bytes, self.last_yield_reason, order);
        write_u64(&mut bytes, self.reservation_token, order);
        write_u32(&mut bytes, self.escalation_policy, order);
        write_zeros(&mut bytes, 28);
        assert(bytes@ =~= scb_bytes(*self, order));
        bytes
    }
}

/// A control block that was written is read back unchanged, whatever follows
/// it in the payload.
pub proof fn lemma_scb_round_trip(scb: MorpheusScb, order: ByteOrder, tail: Seq<u8>)
    ensures
        scb_bytes(scb, order).len() == SCB_SIZE,
        scb_at(scb_bytes(scb, order) + tail, order) == scb,
{
    let bytes = scb_bytes(scb, order) + tail;
    assert(scb_bytes(scb, order).len() == 128);
    assert(bytes.subrange(0, 8) =~= bytes_of(scb.preempt_seq as int, 8, order));
    lemma_field64(bytes, 0, scb.preempt_seq, order);
    assert(bytes.subrange(8, 16) =~= bytes_of(scb.budget_remaining_ns as int, 8, order));
    lemma_field64(bytes, 8, scb.budget_remaining_ns, order);
    assert(bytes.subrange(16, 20) =~= bytes_of(scb.kernel_pressure_level as int, 4, order));
    lemma_field32(bytes, 16, scb.kernel_pressure_level, order);
    assert(bytes.subrange(20, 24) =~= bytes_of(scb.worker_state as int, 4, order));
    lemma_field32(bytes, 20, scb.worker_state, order);
    assert(bytes.subrange(24, 28) =~= bytes_of(scb.hint_loss_count as int, 4, order));
    lemma_field32(bytes, 24, scb.hint_loss_count, order);
    assert(bytes.subrange(28, 32) =~= bytes_of(scb.ringbuf_overflow_count as int, 4, order));
    lemma_field32(bytes, 28, scb.ringbuf_overflow_count, order);
    assert(bytes.subrange(32, 40) =~= bytes_of(scb.last_escalation_ns as int, 8, order));
    lemma_field64(bytes, 32, scb.last_escalation_ns, order);
    assert(bytes.subrange(64, 68) =~= bytes_of(scb.is_in_critical_section as int, 4, order));
    lemma_field32(bytes, 64, scb.is_in_critical_section, order);
    assert(bytes.subrange(68, 72) =~= bytes_of(scb.escapable as int, 4, order));
    lemma_field32(bytes, 68, scb.escapable, order);
    assert(bytes.subrange(72, 80) =~= bytes_of(scb.last_ack_seq as int, 8, order));
    lemma_field64(bytes, 72, scb.last_ack_seq, order);
    assert(bytes.subrange(80, 84) =~= bytes_of(scb.runtime_priority as int, 4, order));
    lemma_field32(bytes, 80, scb.runtime_priority, order);
    assert(bytes.subrange(84, 88) =~= bytes_of(scb.last_yield_reason as int, 4, order));
    lemma_field32(bytes, 84, scb.last_yield_reason, order);
    assert(bytes.subrange(88, 96) =~= bytes_of(scb.reservation_token as int, 8, order));
    lemma_field64(bytes, 88, scb.reservation_token, order);
    assert(bytes.subrange(96, 100) =~= bytes_of(scb.escalation_policy as int, 4, order));
    lemma_field32(bytes, 96, scb.escalation_policy, order);
}

proof fn lemma_field32(bytes: Seq<u8>, at: int, value: u32, order: ByteOrder)
    requires
        0 <= at,
        at + 4 <= bytes.len(),
        bytes.subrange(at, at + 4) == bytes_of(value as int, 4, order),
    ensures
        u32_at(bytes, at, order) == value,
{
    assert forall|i: int| 0 <= i < 4 implies bytes[at + i] == bytes_of(value as int, 4, order)[i] by {
        assert(bytes.subrange(at, at + 4)[i] == bytes[at + i]);
    }
    crate::wire::lemma_u32_round_trip(bytes, at, value, order);
}

proof fn lemma_field64(bytes: Seq<u8>, at: int, value: u64, order: ByteOrder)
    requires
        0 <= at,
        at + 8 <= bytes.len(),
        bytes.subrange(at, at + 8) == bytes_of(value as int, 8, order),
    ensures
        u64_at(bytes, at, order) == value,
{
    assert forall|i: int| 0 <= i < 8 implies bytes[at + i] == bytes_of(value as int, 8, order)[i] by {
        assert(bytes.subrange(at, at + 8)[i] == bytes[at + i]);
    }
    crate::wire::lemma_u64_round_trip(bytes, at, value, order);
}

} // verus!
