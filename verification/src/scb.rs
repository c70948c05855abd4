//! The shared control block and the worker's handle to it.
//!
//! A control block has two halves. The kernel writes the first and the worker
//! reads it; the worker writes the second and the kernel reads it. The types
//! here hold one snapshot of a block as plain values. [`ScbHandle`] is the
//! worker's own snapshot: it takes in what the kernel wrote through
//! [`ScbHandle::observe_kernel`] and changes the worker's half through the
//! protocol operations, so that whoever owns the shared memory can publish it.

use vstd::prelude::*;
use crate::common::{EscalationPolicy, MorpheusHint, WorkerState, YieldReason};
use crate::config::{DEFAULT_PRIORITY, DEFAULT_SLICE_NS, MAX_PRIORITY, MAX_WORKERS};
use crate::error::Error;

verus! {

/// One snapshot of a shared control block.
#[derive(Clone, Copy, Debug, PartialEq, Eq, Structural)]
pub struct MorpheusScb {
    /// Raised by the kernel each time it asks the worker to yield.
    pub preempt_seq: u64,
    /// Advisory rest of the time slice, in nanoseconds.
    pub budget_remaining_ns: u64,
    /// Coarse system pressure, 0 to 100.
    pub kernel_pressure_level: u32,
    /// A `WorkerState` code.
    pub worker_state: u32,
    /// Hints that the kernel saw being dropped.
    pub hint_loss_count: u32,
    /// Times the hint ring was full.
    pub ringbuf_overflow_count: u32,
    /// Monotonic time of the last escalation, in nanoseconds.
    pub last_escalation_ns: u64,
    /// 1 while a critical section is open, else 0.
    pub is_in_critical_section: u32,
    /// 1 if the worker consents to escalation, else 0.
    pub escapable: u32,
    /// Highest preempt sequence the worker has acknowledged.
    pub last_ack_seq: u64,
    /// Advisory priority, 0 to 1000.
    pub runtime_priority: u32,
    /// A `YieldReason` code.
    pub last_yield_reason: u32,
    /// Kept for protocols to come; carried along untouched.
    pub reservation_token: u64,
    /// An `EscalationPolicy` code.
    pub escalation_policy: u32,
}

/// What the kernel writes into a control block while the worker runs.
#[derive(Clone, Copy, Debug, PartialEq, Eq, Structural)]
pub struct KernelRegion {
    /// The kernel's preempt sequence.
    pub preempt_seq: u64,
    /// Advisory rest of the time slice, in nanoseconds.
    pub budget_remaining_ns: u64,
    /// Coarse system pressure, 0 to 100.
    pub kernel_pressure_level: u32,
    /// Hints that the kernel saw being dropped.
    pub hint_loss_count: u32,
    /// Times the hint ring was full.
    pub ringbuf_overflow_count: u32,
    /// Monotonic time of the last escalation, in nanoseconds.
    pub last_escalation_ns: u64,
}

impl MorpheusScb {
    /// The block of a worker that has not run yet.
    pub open spec fn initial(escapable: bool) -> MorpheusScb {
        MorpheusScb {
            preempt_seq: 0,
            budget_remaining_ns: 0,
            kernel_pressure_level: 0,
            worker_state: WorkerState::Init.code(),
            hint_loss_count: 0,
            ringbuf_overflow_count: 0,
            last_escalation_ns: 0,
            is_in_critical_section: 0,
            escapable: if escapable { 1 } else { 0 },
            last_ack_seq: 0,
            runtime_priority: DEFAULT_PRIORITY,
            last_yield_reason: YieldReason::Unset.code(),
            reservation_token: 0,
            escalation_policy: EscalationPolicy::Off.code(),
        }
    }

    /// What holds of every snapshot of a block that a worker maintains: the
    /// worker never acknowledges a sequence the kernel has not reached, the
    /// two flags are 0 or 1 and the priority is within its range.
    pub open spec fn well_formed(&self) -> bool {
        &&& self.last_ack_seq <= self.preempt_seq
        &&& self.is_in_critical_section <= 1
        &&& self.escapable <= 1
        &&& self.runtime_priority <= MAX_PRIORITY
    }

    /// Whether the kernel waits for an acknowledgement.
    pub open spec fn hint_pending(&self) -> bool {
        self.preempt_seq > self.last_ack_seq
    }

    /// The snapshot after the worker acknowledged every request seen so far.
    pub open spec fn acknowledged(self) -> MorpheusScb {
        MorpheusScb { last_ack_seq: self.preempt_seq, ..self }
    }

    /// Whether the kernel may send this worker hints: only while it runs.
    pub open spec fn receives_hints(&self) -> bool {
        WorkerState::decode(self.worker_state) == Some(WorkerState::Running)
    }

    /// The snapshot after a hint with the sequence `seq` was handed to the
    /// worker: a worker that does not run ignores it; for one that runs the
    /// preempt sequence rises to `seq`, unless it is there already.
    pub open spec fn after_hint(self, seq: u64) -> MorpheusScb {
        if self.receives_hints() && seq > self.preempt_seq {
            MorpheusScb { preempt_seq: seq, ..self }
        } else {
            self
        }
    }

    /// The conditions that must all hold before the kernel may go beyond
    /// hinting: the worker runs, its policy allows it, it consented, it is in
    /// no critical section and it owes an acknowledgement.
    pub open spec fn escalation_permitted(&self) -> bool {
        &&& self.receives_hints()
        &&& EscalationPolicy::decode(self.escalation_policy) matches Some(policy)
        &&& policy.permits_escalation()
        &&& self.escapable == 1
        &&& self.is_in_critical_section == 0
        &&& self.hint_pending()
    }

    /// Creates the block of a worker that has not run yet: every counter is
    /// zero, the state is `Init`, the priority is in the middle of its range.
    pub fn new(escapable: bool) -> (scb: MorpheusScb)
        ensures
            scb == MorpheusScb::initial(escapable),
            scb.well_formed(),
    {
        MorpheusScb {
            preempt_seq: 0,
            budget_remaining_ns: 0,
            kernel_pressure_level: 0,
            worker_state: WorkerState::Init.to_u32(),
            hint_loss_count: 0,
            ringbuf_overflow_count: 0,
            last_escalation_ns: 0,
            is_in_critical_section: 0,
            escapable: if escapable { 1 } else { 0 },
            last_ack_seq: 0,
            runtime_priority: DEFAULT_PRIORITY,
            last_yield_reason: YieldReason::Unset.to_u32(),
            reservation_token: 0,
            escalation_policy: EscalationPolicy::Off.to_u32(),
        }
    }

    /// The lifecycle state in this snapshot, if its code is known.
    pub fn state(&self) -> (state: Option<WorkerState>)
        ensures
            state == WorkerState::decode(self.worker_state),
    {
        match WorkerState::try_from(self.worker_state) {
            Ok(state) => Some(state),
            Err(_) => None,
        }
    }

    /// Whether the kernel may send this worker hints: only while it runs.
    pub fn can_receive_hints(&self) -> (allowed: bool)
        ensures
            allowed == self.receives_hints(),
    {
        match self.state() {
            Some(state) => state.can_receive_hints(),
            None => false,
        }
    }

    /// Whether the kernel may escalate against this worker now. How long the
    /// kernel then waits is its own affair; without these conditions it never
    /// acts.
    pub fn can_escalate(&self) -> (allowed: bool)
        ensures
            allowed == self.escalation_permitted(),
            self.escapable != 1 ==> !allowed,
            self.is_in_critical_section > 0 ==> !allowed,
            !self.receives_hints() ==> !allowed,
    {
        let running = match self.state() {
            Some(state) => state.can_escalate(),
            None => false,
        };
        let policy_allows = match EscalationPolicy::try_from(self.escalation_policy) {
            Ok(policy) => policy != EscalationPolicy::Off,
            Err(_) => false,
        };
        running && policy_allows && self.escapable == 1 && self.is_in_critical_section == 0
            && self.preempt_seq > self.last_ack_seq
    }
}

impl Default for MorpheusScb {
    /// The block of a worker that consents to escalation.
    fn default() -> (scb: MorpheusScb)
        ensures
            scb == MorpheusScb::initial(true),
    {
        MorpheusScb::new(true)
    }
}

/// A worker's handle to its control block.
///
/// The handle belongs to one worker thread. Whatever is done through it, the
/// snapshot stays well formed and the worker id stays an index into the
/// control-block map.
pub struct ScbHandle {
    worker_id: u32,
    scb: MorpheusScb,
}

impl View for ScbHandle {
    type V = MorpheusScb;

    closed spec fn view(&self) -> MorpheusScb {
        self.scb
    }
}

impl ScbHandle {
    /// The id of the worker that owns the handle.
    pub closed spec fn id(&self) -> u32 {
        self.worker_id
    }

    /// The invariant of every handle.
    #[verifier::type_invariant]
    pub open spec fn wf(&self) -> bool {
        &&& self.id() < MAX_WORKERS
        &&& self@.well_formed()
    }

    /// Creates the handle of worker `worker_id` with a freshly initialised
    /// block: a full time slice, nothing requested, nothing acknowledged.
    ///
    /// Fails with `InvalidWorker` exactly when `worker_id` is no index into the
    /// control-block map.
    pub fn new(worker_id: u32, escapable: bool) -> (created: Result<ScbHandle, Error>)
        ensures
            created is Ok <==> worker_id < MAX_WORKERS,
            created matches Ok(handle) ==> {
                &&& handle.id() == worker_id
                &&& handle@ == (MorpheusScb {
                    budget_remaining_ns: DEFAULT_SLICE_NS,
                    ..MorpheusScb::initial(escapable)
                })
                &&& handle.wf()
            },
            created matches Err(error) ==> error == Error::InvalidWorker(worker_id),
    {
        if worker_id >= MAX_WORKERS {
            return Err(Error::InvalidWorker(worker_id));
        }
        let mut scb = MorpheusScb::new(escapable);
        scb.budget_remaining_ns = DEFAULT_SLICE_NS;
        Ok(ScbHandle { worker_id, scb })
    }

    /// The id of the worker that owns the handle.
    pub fn worker_id(&self) -> (id: u32)
        ensures
            id == self.id(),
            id < MAX_WORKERS,
    {
        proof {
            use_type_invariant(self);
        }
        self.worker_id
    }

    /// The current snapshot.
    pub fn scb(&self) -> (scb: &MorpheusScb)
        ensures
            *scb == self@,
            scb.well_formed(),
    {
        proof {
            use_type_invariant(self);
        }
        &self.scb
    }

    /// Whether the kernel asked for a yield that is not yet acknowledged.
    pub fn yield_requested(&self) -> (requested: bool)
        ensures
            requested == (self@.preempt_seq > self@.last_ack_seq),
    {
        self.scb.preempt_seq > self.scb.last_ack_seq
    }

    /// Acknowledges every yield request seen so far: the acknowledged sequence
    /// becomes the preempt sequence. Nothing else changes, and a second call
    /// changes nothing at all. The handle has one owner, so the update cannot
    /// be lost and the result is always `true`.
    pub fn acknowledge(&mut self) -> (acknowledged: bool)
        ensures
            acknowledged,
            final(self).id() == old(self).id(),
            final(self)@ == old(self)@.acknowledged(),
            !final(self)@.hint_pending(),
            final(self).wf(),
    {
        proof {
            use_type_invariant(&*self);
        }
        let target = self.scb.preempt_seq;
        let current = self.scb.last_ack_seq;
        if target <= current {
            return true;
        }
        self.scb.last_ack_seq = target;
        true
    }

    /// Sets the critical-section flag and returns what it was before.
    pub fn enter_critical(&mut self) -> (previous: u32)
        ensures
            previous == old(self)@.is_in_critical_section,
            final(self).id() == old(self).id(),
            final(self)@ == (MorpheusScb { is_in_critical_section: 1, ..old(self)@ }),
            final(self).wf(),
    {
        proof {
            use_type_invariant(&*self);
        }
        let previous = self.scb.is_in_critical_section;
        self.scb.is_in_critical_section = 1;
        previous
    }

    /// Clears the critical-section flag.
    pub fn exit_critical(&mut self)
        ensures
            final(self).id() == old(self).id(),
            final(self)@ == (MorpheusScb { is_in_critical_section: 0, ..old(self)@ }),
            final(self).wf(),
    {
        proof {
            use_type_invariant(&*self);
        }
        self.scb.is_in_critical_section = 0;
    }

    /// The pressure level the kernel reported last.
    pub fn pressure_level(&self) -> (level: u32)
        ensures
            level == self@.kernel_pressure_level,
    {
        self.scb.kernel_pressure_level
    }

    /// The rest of the time slice the kernel reported last, in nanoseconds.
    pub fn budget_remaining_ns(&self) -> (budget: u64)
        ensures
            budget == self@.budget_remaining_ns,
    {
        self.scb.budget_remaining_ns
    }

    /// Publishes an advisory priority; values above 1000 are stored as 1000.
    pub fn set_priority(&mut self, priority: u32)
        ensures
            final(self).id() == old(self).id(),
            final(self)@ == (MorpheusScb {
                runtime_priority: if priority <= MAX_PRIORITY {
                    priority
                } else {
                    MAX_PRIORITY
                },
                ..old(self)@
            }),
            final(self).wf(),
    {
        proof {
            use_type_invariant(&*self);
        }
        self.scb.runtime_priority = if priority <= MAX_PRIORITY {
            priority
        } else {
            MAX_PRIORITY
        };
    }

    /// Publishes the escalation policy the worker accepts.
    pub fn set_escalation_policy(&mut self, policy: EscalationPolicy)
        ensures
            final(self).id() == old(self).id(),
            final(self)@ == (MorpheusScb { escalation_policy: policy.code(), ..old(self)@ }),
            final(self).wf(),
    {
        proof {
            use_type_invariant(&*self);
        }
        self.scb.escalation_policy = policy.to_u32();
    }

    /// Notes in the ledger why the worker yielded last.
    pub fn record_yield(&mut self, reason: YieldReason)
        ensures
            final(self).id() == old(self).id(),
            final(self)@ == (MorpheusScb { last_yield_reason: reason.code(), ..old(self)@ }),
            final(self).wf(),
    {
        proof {
            use_type_invariant(&*self);
        }
        self.scb.last_yield_reason = reason.to_u32();
    }

    /// Takes in what the kernel wrote. The preempt sequence only ever grows:
    /// a reading below the one already seen is stale and leaves it as it is.
    /// The worker's half of the block and the lifecycle state do not change.
    pub fn observe_kernel(&mut self, kernel: KernelRegion)
        ensures
            final(self).id() == old(self).id(),
            final(self)@ == (MorpheusScb {
                preempt_seq: if kernel.preempt_seq > old(self)@.preempt_seq {
                    kernel.preempt_seq
                } else {
                    old(self)@.preempt_seq
                },
                budget_remaining_ns: kernel.budget_remaining_ns,
                kernel_pressure_level: kernel.kernel_pressure_level,
                hint_loss_count: kernel.hint_loss_count,
                ringbuf_overflow_count: kernel.ringbuf_overflow_count,
                last_escalation_ns: kernel.last_escalation_ns,
                ..old(self)@
            }),
            final(self).wf(),
    {
        proof {
            use_type_invariant(&*self);
        }
        if kernel.preempt_seq > self.scb.preempt_seq {
            self.scb.preempt_seq = kernel.preempt_seq;
        }
        self.scb.budget_remaining_ns = kernel.budget_remaining_ns;
        self.scb.kernel_pressure_level = kernel.kernel_pressure_level;
        self.scb.hint_loss_count = kernel.hint_loss_count;
        self.scb.ringbuf_overflow_count = kernel.ringbuf_overflow_count;
        self.scb.last_escalation_ns = kernel.last_escalation_ns;
    }

    /// Takes a hint record addressed to this worker. A worker that is not
    /// `Running` ignores it: the result is `false` and nothing changes.
    /// Otherwise the preempt sequence rises to the hint's sequence, unless it
    /// is there already.
    pub fn accept_hint(&mut self, hint: &MorpheusHint) -> (accepted: bool)
        ensures
            accepted == old(self)@.receives_hints(),
            final(self).id() == old(self).id(),
            final(self)@ == old(self)@.after_hint(hint.seq),
            final(self).wf(),
    {
        proof {
            use_type_invariant(&*self);
        }
        if !self.scb.can_receive_hints() {
            return false;
        }
        if hint.seq > self.scb.preempt_seq {
            self.scb.preempt_seq = hint.seq;
        }
        true
    }

    /// Moves the worker to the state `next` if that is the one valid step from
    /// where it stands; otherwise the result is `false` and nothing changes.
    pub fn transition(&mut self, next: WorkerState) -> (moved: bool)
        ensures
            moved == (match WorkerState::decode(old(self)@.worker_state) {
                Some(state) => state.allows(next),
                None => false,
            }),
            final(self).id() == old(self).id(),
            moved ==> final(self)@ == (MorpheusScb { worker_state: next.code(), ..old(self)@ }),
            !moved ==> final(self)@ == old(self)@,
            final(self).wf(),
    {
        proof {
            use_type_invariant(&*self);
        }
        let valid = match self.scb.state() {
            Some(state) => state.can_transition_to(next),
            None => false,
        };
        if valid {
            self.scb.worker_state = next.to_u32();
        }
        valid
    }
}

/// In every snapshot that a handle holds, the acknowledged sequence is at
/// most the preempt sequence.
pub proof fn lemma_never_acknowledged_ahead(handle: ScbHandle)
    requires
        handle.wf(),
    ensures
        handle@.last_ack_seq <= handle@.preempt_seq,
{
}

/// A worker that does not run is out of the kernel's reach: no hint changes
/// its snapshot and no escalation is permitted, whatever else the snapshot
/// holds.
pub proof fn lemma_inert_unless_running(scb: MorpheusScb, seq: u64)
    requires
        !scb.receives_hints(),
    ensures
        scb.after_hint(seq) == scb,
        !scb.escalation_permitted(),
{
}

/// Acknowledging twice is acknowledging once: after the first
/// acknowledgement no request is pending, and the second changes nothing.
pub proof fn lemma_acknowledge_idempotent(scb: MorpheusScb)
    ensures
        !scb.acknowledged().hint_pending(),
        scb.acknowledged().acknowledged() == scb.acknowledged(),
        scb.acknowledged().last_ack_seq <= scb.acknowledged().preempt_seq,
{
}

} // verus!
