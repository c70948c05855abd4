//! The binding of a worker thread to its control block.
//!
//! Each worker thread keeps one [`WorkerContext`]: the handle to its control
//! block once it is bound, its worker id, and how deeply critical sections are
//! nested on it. The functions of this module and of the critical-section
//! module are the only way to change a context, so the critical flag of a
//! bound block always says whether a critical section is open.

use vstd::prelude::*;
use crate::common::{MorpheusHint, WorkerState, YieldReason};
use crate::error::Error;
use crate::scb::{KernelRegion, MorpheusScb, ScbHandle};
use vstd::string::StringExecFns;

verus! {

/// What critical sections change of a thread: the nesting depth and the
/// critical flag of its control block.
pub struct Nesting {
    /// Number of critical sections that are open.
    pub depth: nat,
    /// The critical flag: 1 while a section is open, else 0.
    pub flag: u32,
}

impl Nesting {
    /// The state after one more section was entered. The flag is written only
    /// by the entry that opens the outermost section.
    pub open spec fn enter(self) -> Nesting {
        Nesting { depth: self.depth + 1, flag: if self.depth == 0 { 1 } else { self.flag } }
    }

    /// The state after one section was left. The flag is written only by the
    /// exit that closes the outermost section.
    pub open spec fn exit(self) -> Nesting
        recommends
            self.depth > 0,
    {
        Nesting {
            depth: (self.depth - 1) as nat,
            flag: if self.depth == 1 { 0 } else { self.flag },
        }
    }

    /// The flag says whether a section is open.
    pub open spec fn consistent(self) -> bool {
        self.flag == (if self.depth > 0 { 1u32 } else { 0u32 })
    }
}

/// The state that a worker thread keeps about itself.
pub struct WorkerContext {
    scb: Option<ScbHandle>,
    worker_id: Option<u32>,
    depth: u32,
}

impl WorkerContext {
    /// The snapshot of the bound control block, if one is bound.
    pub closed spec fn snapshot(&self) -> Option<MorpheusScb> {
        match self.scb {
            Some(handle) => Some(handle@),
            None => None,
        }
    }

    /// The bound handle, if one is bound.
    pub closed spec fn handle(&self) -> Option<ScbHandle> {
        self.scb
    }

    /// The worker id of this thread, if it is a worker.
    pub closed spec fn id(&self) -> Option<u32> {
        self.worker_id
    }

    /// Number of critical sections open on this thread.
    pub closed spec fn depth(&self) -> nat {
        self.depth as nat
    }

    /// Depth and critical flag together. A thread without a control block has
    /// no flag to show; it counts as the flag a block would carry.
    pub open spec fn nesting(&self) -> Nesting {
        Nesting {
            depth: self.depth(),
            flag: match self.snapshot() {
                Some(scb) => scb.is_in_critical_section,
                None => if self.depth() > 0 { 1 } else { 0 },
            },
        }
    }

    /// The invariant of every context: a bound handle is well formed, its
    /// snapshot is the context's, and its critical flag is set exactly while a
    /// critical section is open.
    #[verifier::type_invariant]
    pub open spec fn wf(&self) -> bool {
        &&& self.depth() <= u32::MAX
        &&& self.nesting().consistent()
        &&& self.handle() matches Some(handle) ==> handle.wf() && self.snapshot() == Some(
            handle@,
        )
        &&& self.handle() is None ==> self.snapshot() is None
    }

    /// The context of a thread that is no worker yet: nothing bound, no
    /// critical section open.
    pub fn new() -> (ctx: WorkerContext)
        ensures
            ctx.handle() is None,
            ctx.snapshot() is None,
            ctx.id() is None,
            ctx.depth() == 0,
            ctx.wf(),
    {
        WorkerContext { scb: None, worker_id: None, depth: 0 }
    }

    /// Number of critical sections open on this thread.
    pub fn critical_depth(&self) -> (depth: u32)
        ensures
            depth == self.depth(),
    {
        self.depth
    }

    /// Opens one more critical section and returns the new depth.
    pub(crate) fn enter_critical(&mut self) -> (depth: u32)
        requires
            old(self).depth() < u32::MAX,
        ensures
            depth == old(self).depth() + 1,
            final(self).nesting() == old(self).nesting().enter(),
            final(self).id() == old(self).id(),
            final(self).snapshot() == match old(self).snapshot() {
                Some(scb) => Some(MorpheusScb { is_in_critical_section: 1, ..scb }),
                None => None,
            },
            final(self).wf(),
    {
        proof {
            use_type_invariant(&*self);
        }
        let current = self.depth;
        let mut bound: Option<ScbHandle> = None;
        std::mem::swap(&mut self.scb, &mut bound);
        self.depth = current + 1;
        match bound {
            Some(mut handle) => {
                if current == 0 {
                    handle.enter_critical();
                }
                self.scb = Some(handle);
            },
            None => {},
        }
        current + 1
    }

    /// Closes the innermost critical section.
    pub(crate) fn exit_critical(&mut self)
        requires
            old(self).depth() > 0,
        ensures
            final(self).nesting() == old(self).nesting().exit(),
            final(self).id() == old(self).id(),
            final(self).snapshot() == match old(self).snapshot() {
                Some(scb) => Some(
                    MorpheusScb {
                        is_in_critical_section: if old(self).depth() == 1 {
                            0
                        } else {
                            1
                        },
                        ..scb
                    },
                ),
                None => None,
            },
            final(self).wf(),
    {
        proof {
            use_type_invariant(&*self);
        }
        let current = self.depth;
        let mut bound: Option<ScbHandle> = None;
        std::mem::swap(&mut self.scb, &mut bound);
        self.depth = current - 1;
        match bound {
            Some(mut handle) => {
                if current == 1 {
                    handle.exit_critical();
                }
                self.scb = Some(handle);
            },
            None => {},
        }
    }

    /// Acknowledges every yield request seen so far on the bound block. On a
    /// thread without a control block nothing happens and the result is
    /// `false`.
    pub fn acknowledge(&mut self) -> (acknowledged: bool)
        ensures
            acknowledged == old(self).snapshot() is Some,
            final(self).snapshot() == match old(self).snapshot() {
                Some(scb) => Some(MorpheusScb { last_ack_seq: scb.preempt_seq, ..scb }),
                None => None,
            },
            final(self).id() == old(self).id(),
            final(self).depth() == old(self).depth(),
            final(self).wf(),
    {
        proof {
            use_type_invariant(&*self);
        }
        let mut bound: Option<ScbHandle> = None;
        std::mem::swap(&mut self.scb, &mut bound);
        match bound {
            Some(mut handle) => {
                let acknowledged = handle.acknowledge();
                self.scb = Some(handle);
                acknowledged
            },
            None => false,
        }
    }

    /// Takes in what the kernel wrote into the bound block; see
    /// [`ScbHandle::observe_kernel`]. Without a bound block nothing happens.
    pub fn observe_kernel(&mut self, kernel: KernelRegion)
        ensures
            final(self).snapshot() == match old(self).snapshot() {
                Some(scb) => Some(
                    MorpheusScb {
                        preempt_seq: if kernel.preempt_seq > scb.preempt_seq {
                            kernel.preempt_seq
                        } else {
                            scb.preempt_seq
                        },
                        budget_remaining_ns: kernel.budget_remaining_ns,
                        kernel_pressure_level: kernel.kernel_pressure_level,
                        hint_loss_count: kernel.hint_loss_count,
                        ringbuf_overflow_count: kernel.ringbuf_overflow_count,
                        last_escalation_ns: kernel.last_escalation_ns,
                        ..scb
                    },
                ),
                None => None,
            },
            final(self).id() == old(self).id(),
            final(self).depth() == old(self).depth(),
            final(self).wf(),
    {
        proof {
            use_type_invariant(&*self);
        }
        let mut bound: Option<ScbHandle> = None;
        std::mem::swap(&mut self.scb, &mut bound);
        match bound {
            Some(mut handle) => {
                handle.observe_kernel(kernel);
                self.scb = Some(handle);
            },
            None => {},
        }
    }

    /// Hands a hint record to the bound block; see [`ScbHandle::accept_hint`].
    /// The result is `true` exactly when a block is bound and its worker is
    /// `Running`.
    pub fn accept_hint(&mut self, hint: &MorpheusHint) -> (accepted: bool)
        ensures
            accepted == (match old(self).snapshot() {
                Some(scb) => scb.receives_hints(),
                None => false,
            }),
            final(self).snapshot() == match old(self).snapshot() {
                Some(scb) => Some(scb.after_hint(hint.seq)),
                None => None,
            },
            final(self).id() == old(self).id(),
            final(self).depth() == old(self).depth(),
            final(self).wf(),
    {
        proof {
            use_type_invariant(&*self);
        }
        let mut bound: Option<ScbHandle> = None;
        std::mem::swap(&mut self.scb, &mut bound);
        match bound {
            Some(mut handle) => {
                let accepted = handle.accept_hint(hint);
                self.scb = Some(handle);
                accepted
            },
            None => false,
        }
    }

    /// Publishes an advisory priority on the bound block; values above 1000
    /// are stored as 1000. The result says whether a block is bound.
    pub fn set_priority(&mut self, priority: u32) -> (stored: bool)
        ensures
            stored == old(self).snapshot() is Some,
            final(self).snapshot() == match old(self).snapshot() {
                Some(scb) => Some(
                    MorpheusScb {
                        runtime_priority: if priority <= crate::config::MAX_PRIORITY {
                            priority
                        } else {
                            crate::config::MAX_PRIORITY
                        },
                        ..scb
                    },
                ),
                None => None,
            },
            final(self).id() == old(self).id(),
            final(self).depth() == old(self).depth(),
            final(self).wf(),
    {
        proof {
            use_type_invariant(&*self);
        }
        let mut bound: Option<ScbHandle> = None;
        std::mem::swap(&mut self.scb, &mut bound);
        match bound {
            Some(mut handle) => {
                handle.set_priority(priority);
                self.scb = Some(handle);
                true
            },
            None => false,
        }
    }

    /// Notes in the ledger of the bound block why the worker yielded last.
    pub fn record_yield(&mut self, reason: YieldReason)
        ensures
            final(self).snapshot() == match old(self).snapshot() {
                Some(scb) => Some(MorpheusScb { last_yield_reason: reason.code(), ..scb }),
                None => None,
            },
            final(self).id() == old(self).id(),
            final(self).depth() == old(self).depth(),
            final(self).wf(),
    {
        proof {
            use_type_invariant(&*self);
        }
        let mut bound: Option<ScbHandle> = None;
        std::mem::swap(&mut self.scb, &mut bound);
        match bound {
            Some(mut handle) => {
                handle.record_yield(reason);
                self.scb = Some(handle);
            },
            None => {},
        }
    }

    /// Moves the bound worker to the state `next` if that is the one valid
    /// step from where it stands; see [`ScbHandle::transition`].
    pub fn transition(&mut self, next: WorkerState) -> (moved: bool)
        ensures
            moved == (match old(self).snapshot() {
                Some(scb) => match WorkerState::decode(scb.worker_state) {
                    Some(state) => state.allows(next),
                    None => false,
                },
                None => false,
            }),
            final(self).snapshot() == match old(self).snapshot() {
                Some(scb) => Some(
                    MorpheusScb {
                        worker_state: if moved {
                            next.code()
                        } else {
                            scb.worker_state
                        },
                        ..scb
                    },
                ),
                None => None,
            },
            final(self).id() == old(self).id(),
            final(self).depth() == old(self).depth(),
            final(self).wf(),
    {
        proof {
            use_type_invariant(&*self);
        }
        let mut bound: Option<ScbHandle> = None;
        std::mem::swap(&mut self.scb, &mut bound);
        match bound {
            Some(mut handle) => {
                let moved = handle.transition(next);
                self.scb = Some(handle);
                moved
            },
            None => false,
        }
    }
}

/// The handle bound to this thread, or `None` on a thread that is no worker.
pub fn try_current_scb(ctx: &WorkerContext) -> (scb: Option<&ScbHandle>)
    ensures
        scb is Some <==> ctx.handle() is Some,
        scb is Some <==> ctx.snapshot() is Some,
        scb matches Some(handle) ==> ctx.handle() == Some(*handle) && ctx.snapshot() == Some(
            handle@,
        ),
{
    proof {
        use_type_invariant(ctx);
    }
    ctx.scb.as_ref()
}

/// The handle bound to this thread. The thread must be a worker.
pub fn current_scb(ctx: &WorkerContext) -> (scb: &ScbHandle)
    requires
        ctx.handle() is Some,
    ensures
        ctx.handle() == Some(*scb),
        ctx.snapshot() == Some(scb@),
{
    proof {
        use_type_invariant(ctx);
    }
    ctx.scb.as_ref().unwrap()
}

/// The worker id of this thread, or `None` on a thread that is no worker.
pub fn current_worker_id(ctx: &WorkerContext) -> (id: Option<u32>)
    ensures
        id == ctx.id(),
{
    ctx.worker_id
}

/// Binds a control block and a worker id to this thread. The critical flag of
/// the block is made to say what holds of the thread: set if a critical
/// section is open on it, clear if none is.
pub fn set_current_scb(ctx: &mut WorkerContext, scb: ScbHandle, worker_id: u32)
    ensures
        final(ctx).id() == Some(worker_id),
        final(ctx).depth() == old(ctx).depth(),
        final(ctx).handle() matches Some(handle) && handle.id() == scb.id(),
        final(ctx).snapshot() == Some(
            MorpheusScb {
                is_in_critical_section: if old(ctx).depth() > 0 {
                    1
                } else {
                    0
                },
                ..scb@
            },
        ),
        final(ctx).wf(),
{
    proof {
        use_type_invariant(&*ctx);
    }
    let mut handle = scb;
    if ctx.depth > 0 {
        handle.enter_critical();
    } else {
        handle.exit_critical();
    }
    ctx.scb = Some(handle);
    ctx.worker_id = Some(worker_id);
}

/// Unbinds the control block and the worker id from this thread and hands the
/// handle back, as a worker does when it is torn down.
pub fn take_current_scb(ctx: &mut WorkerContext) -> (scb: Option<ScbHandle>)
    ensures
        scb == old(ctx).handle(),
        scb matches Some(handle) ==> handle.wf() && old(ctx).snapshot() == Some(handle@),
        final(ctx).handle() is None,
        final(ctx).snapshot() is None,
        final(ctx).id() is None,
        final(ctx).depth() == old(ctx).depth(),
        final(ctx).wf(),
{
    proof {
        use_type_invariant(&*ctx);
    }
    let mut bound: Option<ScbHandle> = None;
    std::mem::swap(&mut ctx.scb, &mut bound);
    ctx.worker_id = None;
    bound
}

/// How a worker pool is set up.
#[derive(Debug)]
pub struct WorkerConfig {
    /// Number of workers the pool may hold.
    pub num_workers: usize,
    /// Whether the workers consent to escalation.
    pub escapable: bool,
    /// Prefix of the workers' thread names.
    pub name_prefix: String,
}

impl WorkerConfig {
    /// The configuration of a pool that nobody configured: one worker that
    /// consents to escalation. Callers size the pool to their machine.
    pub open spec fn standard(config: WorkerConfig) -> bool {
        &&& config.num_workers == 1
        &&& config.escapable
        &&& config.name_prefix@ == "morpheus-worker"@
    }
}

impl Default for WorkerConfig {
    fn default() -> (config: WorkerConfig)
        ensures
            WorkerConfig::standard(config),
    {
        WorkerConfig {
            num_workers: 1,
            escapable: true,
            name_prefix: String::from_str("morpheus-worker"),
        }
    }
}

impl Clone for WorkerConfig {
    fn clone(&self) -> (copy: WorkerConfig)
        ensures
            copy == *self,
    {
        WorkerConfig {
            num_workers: self.num_workers,
            escapable: self.escapable,
            name_prefix: self.name_prefix.clone(),
        }
    }
}

/// One worker as its pool knows it.
#[derive(Clone, Copy, Debug, PartialEq, Eq, Structural)]
pub struct WorkerEntry {
    /// Worker id: the index of the worker's control block.
    pub id: u32,
    /// OS thread id under which the worker is registered with the kernel.
    pub tid: u32,
}

/// The workers of a runtime.
///
/// The pool hands out worker ids in order, so the worker at index `i` has the
/// id `i`. It never holds more workers than it was configured for, nor more
/// than there are control blocks.
pub struct WorkerPool {
    workers: Vec<WorkerEntry>,
    config: WorkerConfig,
    shutdown: bool,
}

impl WorkerPool {
    /// The workers allocated so far, in the order of their ids.
    pub closed spec fn members(&self) -> Seq<WorkerEntry> {
        self.workers@
    }

    /// The configuration the pool was made with.
    pub closed spec fn settings(&self) -> WorkerConfig {
        self.config
    }

    /// Whether shutdown was requested.
    pub closed spec fn stopped(&self) -> bool {
        self.shutdown
    }

    /// The invariant of every pool.
    #[verifier::type_invariant]
    pub open spec fn wf(&self) -> bool {
        &&& self.members().len() <= crate::config::MAX_WORKERS
        &&& self.members().len() <= self.settings().num_workers
        &&& forall|i: int| 0 <= i < self.members().len() ==> (#[trigger] self.members()[i]).id == i
    }

    /// Creates a pool without workers.
    pub fn new(config: WorkerConfig) -> (pool: WorkerPool)
        ensures
            pool.members().len() == 0,
            pool.settings() == config,
            !pool.stopped(),
            pool.wf(),
    {
        WorkerPool { workers: Vec::new(), config, shutdown: false }
    }

    /// Number of workers the pool was configured for.
    pub fn num_workers(&self) -> (count: usize)
        ensures
            count == self.settings().num_workers,
    {
        self.config.num_workers
    }

    /// Number of workers allocated so far.
    pub fn allocated(&self) -> (count: usize)
        ensures
            count == self.members().len(),
    {
        self.workers.len()
    }

    /// The configuration the pool was made with.
    pub fn config(&self) -> (config: &WorkerConfig)
        ensures
            *config == self.settings(),
    {
        &self.config
    }

    /// The worker with the id `worker_id`, if it was allocated.
    pub fn worker(&self, worker_id: u32) -> (found: Option<WorkerEntry>)
        ensures
            found is Some <==> worker_id < self.members().len(),
            found matches Some(worker) ==> worker == self.members()[worker_id as int]
                && worker.id == worker_id,
    {
        proof {
            use_type_invariant(self);
        }
        if (worker_id as usize) < self.workers.len() {
            Some(self.workers[worker_id as usize])
        } else {
            None
        }
    }

    /// Allocates the next worker for the thread `tid` and creates the handle
    /// to its freshly initialised control block, in state `Init`.
    ///
    /// Fails, and changes nothing, with `NotSupported` after shutdown was
    /// requested, with `Registration` when the pool holds as many workers as
    /// it was configured for, and with `InvalidWorker` when every control
    /// block is taken.
    pub fn allocate(&mut self, tid: u32) -> (allocated: Result<ScbHandle, Error>)
        ensures
            final(self).settings() == old(self).settings(),
            final(self).stopped() == old(self).stopped(),
            final(self).wf(),
            allocated is Ok <==> !old(self).stopped() && old(self).members().len() < old(
                self,
            ).settings().num_workers && old(self).members().len() < crate::config::MAX_WORKERS,
            allocated matches Ok(handle) ==> {
                &&& handle.id() == old(self).members().len()
                &&& handle@ == (MorpheusScb {
                    budget_remaining_ns: crate::config::DEFAULT_SLICE_NS,
                    ..MorpheusScb::initial(old(self).settings().escapable)
                })
                &&& handle.wf()
                &&& final(self).members() == old(self).members().push(
                    WorkerEntry { id: handle.id(), tid },
                )
            },
            allocated matches Err(error) ==> {
                &&& final(self).members() == old(self).members()
                &&& old(self).stopped() ==> (error matches Error::NotSupported(reason) && reason@
                    == "worker pool is shut down"@)
                &&& !old(self).stopped() && old(self).members().len() >= old(
                    self,
                ).settings().num_workers ==> (error matches Error::Registration(reason)
                    && reason@ == "worker pool is full"@)
                &&& !old(self).stopped() && old(self).members().len() < old(
                    self,
                ).settings().num_workers ==> error == Error::InvalidWorker(
                    old(self).members().len() as u32,
                )
            },
    {
        proof {
            use_type_invariant(&*self);
        }
        if self.shutdown {
            return Err(Error::NotSupported(String::from_str("worker pool is shut down")));
        }
        let count = self.workers.len();
        if count >= self.config.num_workers {
            return Err(Error::Registration(String::from_str("worker pool is full")));
        }
        let worker_id = count as u32;
        match ScbHandle::new(worker_id, self.config.escapable) {
            Ok(handle) => {
                let mut workers: Vec<WorkerEntry> = Vec::new();
                std::mem::swap(&mut self.workers, &mut workers);
                workers.push(WorkerEntry { id: worker_id, tid });
                self.workers = workers;
                Ok(handle)
            },
            Err(error) => Err(error),
        }
    }

    /// Requests shutdown: from now on the pool allocates no worker.
    pub fn shutdown(&mut self)
        ensures
            final(self).stopped(),
            final(self).members() == old(self).members(),
            final(self).settings() == old(self).settings(),
            final(self).wf(),
    {
        proof {
            use_type_invariant(&*self);
        }
        self.shutdown = true;
    }

    /// Whether shutdown was requested.
    pub fn is_shutdown(&self) -> (stopped: bool)
        ensures
            stopped == self.stopped(),
    {
        self.shutdown
    }
}

} // verus!
