//! The executor of a worker thread.
//!
//! The executor takes its next task from its own queue, from the queue that
//! all workers share or from the queue of another worker, and decides what
//! happens to it: it is polled, or it goes back into the queue and the worker
//! yields first. Polling is left to the caller, since a task may do anything.

use vstd::prelude::*;
use async_task::Runnable;
use crossbeam::deque::{Injector, Stealer, Worker as WorkQueue};
use std::sync::Arc;
use crate::checkpoint::{
    checkpoint_defensive, checkpoint_reason, checkpoint_yields, hint_pending, PendingYield,
};
use crate::critical::in_critical_section;
use crate::ringbuf::{wrapping_sum, DefensiveMode};
use crate::worker::{try_current_scb, WorkerContext};

verus! {

/// Counters of one executor. They wrap around at `u64::MAX`.
#[derive(Clone, Copy, Debug, PartialEq, Eq, Structural)]
pub struct ExecutorStats {
    /// Tasks spawned.
    pub tasks_spawned: u64,
    /// Tasks that ran to their end.
    pub tasks_completed: u64,
    /// Yields that the kernel asked for.
    pub kernel_yields: u64,
    /// Yields that defensive mode forced.
    pub defensive_yields: u64,
    /// Tasks taken from a queue to be polled.
    pub polls: u64,
}

impl Default for ExecutorStats {
    fn default() -> (stats: ExecutorStats)
        ensures
            stats == (ExecutorStats {
                tasks_spawned: 0,
                tasks_completed: 0,
                kernel_yields: 0,
                defensive_yields: 0,
                polls: 0,
            }),
    {
        ExecutorStats {
            tasks_spawned: 0,
            tasks_completed: 0,
            kernel_yields: 0,
            defensive_yields: 0,
            polls: 0,
        }
    }
}

impl ExecutorStats {
    /// The counters after a yield decision was taken: a yield is counted for
    /// defensive mode if that is on, else for the kernel.
    pub open spec fn after_decision(self, yields: bool, defensive: bool) -> ExecutorStats {
        if !yields {
            self
        } else if defensive {
            ExecutorStats { defensive_yields: wrapping_sum(self.defensive_yields, 1), ..self }
        } else {
            ExecutorStats { kernel_yields: wrapping_sum(self.kernel_yields, 1), ..self }
        }
    }

    /// Counts a spawned task.
    pub fn record_spawn(&mut self)
        ensures
            *final(self) == (ExecutorStats {
                tasks_spawned: wrapping_sum(old(self).tasks_spawned, 1),
                ..*old(self)
            }),
    {
        self.tasks_spawned = self.tasks_spawned.wrapping_add(1);
    }

    /// Counts a task that ran to its end.
    pub fn record_completion(&mut self)
        ensures
            *final(self) == (ExecutorStats {
                tasks_completed: wrapping_sum(old(self).tasks_completed, 1),
                ..*old(self)
            }),
    {
        self.tasks_completed = self.tasks_completed.wrapping_add(1);
    }
}

/// What to do with a task that was taken from a queue.
pub enum TaskAction {
    /// Poll it.
    Run,
    /// Put it back, yield, and complete the yield.
    Requeue(PendingYield),
}

/// Whether the executor has to yield before it polls the next task. The
/// decision is that of a checkpoint; a yield is counted for defensive mode or
/// for the kernel, whichever caused it.
pub fn should_yield(
    ctx: &WorkerContext,
    defensive: &mut DefensiveMode,
    stats: &mut ExecutorStats,
) -> (yields: bool)
    ensures
        yields == checkpoint_yields(
            ctx.depth() > 0,
            old(defensive)@,
            hint_pending(ctx.snapshot()),
        ),
        final(defensive)@ == checkpoint_defensive(ctx.depth() > 0, old(defensive)@),
        *final(stats) == old(stats).after_decision(yields, old(defensive)@.yields()),
{
    if in_critical_section(ctx) {
        return false;
    }
    if defensive.should_yield() {
        stats.defensive_yields = stats.defensive_yields.wrapping_add(1);
        return true;
    }
    match try_current_scb(ctx) {
        Some(handle) => {
            if handle.yield_requested() {
                stats.kernel_yields = stats.kernel_yields.wrapping_add(1);
                return true;
            }
        },
        None => {},
    }
    false
}

/// Decides what happens to a task that was taken from a queue: it is counted
/// as a poll, and it is run unless the executor has to yield first.
pub fn before_poll(
    ctx: &WorkerContext,
    defensive: &mut DefensiveMode,
    stats: &mut ExecutorStats,
) -> (action: TaskAction)
    ensures
        action is Requeue <==> checkpoint_yields(
            ctx.depth() > 0,
            old(defensive)@,
            hint_pending(ctx.snapshot()),
        ),
        action matches TaskAction::Requeue(pending) ==> pending.why() == checkpoint_reason(
            old(defensive)@,
        ),
        final(defensive)@ == checkpoint_defensive(ctx.depth() > 0, old(defensive)@),
        *final(stats) == (ExecutorStats {
            polls: wrapping_sum(old(stats).polls, 1),
            ..*old(stats)
        }).after_decision(action is Requeue, old(defensive)@.yields()),
{
    stats.polls = stats.polls.wrapping_add(1);
    let forced = defensive.is_active();
    if should_yield(ctx, defensive, stats) {
        TaskAction::Requeue(crate::checkpoint::pending_yield(forced))
    } else {
        TaskAction::Run
    }
}

/// A task that is ready to be polled, as `async-task` hands it out. Nothing
/// is known of what it holds.
#[verifier::external_type_specification]
#[verifier::external_body]
#[verifier::reject_recursive_types(M)]
pub struct ExRunnable<M>(async_task::Runnable<M>);

/// The queue of one worker, of `crossbeam`. Other threads steal from it, so
/// nothing is known of what it holds.
#[verifier::external_type_specification]
#[verifier::external_body]
#[verifier::reject_recursive_types(T)]
pub struct ExWorkQueue<T>(crossbeam::deque::Worker<T>);

/// The handle through which other threads steal from a worker's queue.
#[verifier::external_type_specification]
#[verifier::external_body]
#[verifier::reject_recursive_types(T)]
pub struct ExStealer<T>(crossbeam::deque::Stealer<T>);

/// The queue that every thread may push to and steal from.
#[verifier::external_type_specification]
#[verifier::external_body]
#[verifier::reject_recursive_types(T)]
pub struct ExInjector<T>(crossbeam::deque::Injector<T>);

/// `Worker::new_fifo` of `crossbeam`: a new queue that hands its tasks out in
/// the order in which they came.
#[verifier::external_body]
fn new_queue() -> WorkQueue<Runnable> {
    WorkQueue::new_fifo()
}

/// `Worker::push` of `crossbeam`: puts a task into the worker's queue.
#[verifier::external_body]
fn queue_push(queue: &WorkQueue<Runnable>, task: Runnable) {
    queue.push(task)
}

/// `Worker::pop` of `crossbeam`: takes a task from the worker's queue, if one
/// is left there. Whether one is left depends on what other threads stole.
#[verifier::external_body]
fn queue_pop(queue: &WorkQueue<Runnable>) -> Option<Runnable> {
    queue.pop()
}

/// `Injector::steal` of `crossbeam`, once: a task from the shared queue if the
/// attempt succeeded, nothing if the queue was empty or the attempt has to be
/// tried again.
#[verifier::external_body]
fn injector_steal(injector: &Injector<Runnable>) -> Option<Runnable> {
    injector.steal().success()
}

/// `Stealer::steal` of `crossbeam`, once: a task from another worker's queue
/// if the attempt succeeded, nothing if the queue was empty or the attempt
/// has to be tried again.
#[verifier::external_body]
fn stealer_steal(stealer: &Stealer<Runnable>) -> Option<Runnable> {
    stealer.steal().success()
}

/// What one tick of the executor leaves its caller to do.
pub enum Tick {
    /// No queue had a task.
    Idle,
    /// The task is to be polled now.
    Run(Runnable),
    /// The task went back into the queue: yield, and complete the yield.
    Yield(PendingYield),
}

/// The executor of one worker thread: its own queue, the shared queue and
/// the handles to the queues of the other workers.
pub struct LocalExecutor {
    queue: WorkQueue<Runnable>,
    injector: Arc<Injector<Runnable>>,
    stealers: Vec<Stealer<Runnable>>,
    stats: ExecutorStats,
    shutdown: bool,
}

impl LocalExecutor {
    /// The counters.
    pub closed spec fn counters(&self) -> ExecutorStats {
        self.stats
    }

    /// Whether shutdown was requested.
    pub closed spec fn stopped(&self) -> bool {
        self.shutdown
    }

    /// The queue that the executor shares with all workers.
    pub closed spec fn shared(&self) -> Arc<Injector<Runnable>> {
        self.injector
    }

    /// The handles to the queues of the other workers, in the order in which
    /// the executor tries them.
    pub closed spec fn peers(&self) -> Seq<Stealer<Runnable>> {
        self.stealers@
    }

    /// Creates an executor with an empty queue of its own. It steals from the
    /// shared queue `injector` and, through `stealers`, from the other
    /// workers in the given order.
    pub fn new(injector: Arc<Injector<Runnable>>, stealers: Vec<Stealer<Runnable>>) -> (executor:
        LocalExecutor)
        ensures
            executor.shared() == injector,
            executor.peers() == stealers@,
            executor.counters() == (ExecutorStats {
                tasks_spawned: 0,
                tasks_completed: 0,
                kernel_yields: 0,
                defensive_yields: 0,
                polls: 0,
            }),
            !executor.stopped(),
    {
        LocalExecutor {
            queue: new_queue(),
            injector,
            stealers,
            stats: ExecutorStats::default(),
            shutdown: false,
        }
    }

    /// Takes a freshly spawned task into the executor's own queue and counts
    /// it.
    pub fn enqueue(&mut self, task: Runnable)
        ensures
            final(self).counters() == (ExecutorStats {
                tasks_spawned: wrapping_sum(old(self).counters().tasks_spawned, 1),
                ..old(self).counters()
            }),
            final(self).stopped() == old(self).stopped(),
            final(self).shared() == old(self).shared(),
            final(self).peers() == old(self).peers(),
    {
        queue_push(&self.queue, task);
        self.stats.record_spawn();
    }

    /// Counts a task that ran to its end.
    pub fn task_completed(&mut self)
        ensures
            final(self).counters() == (ExecutorStats {
                tasks_completed: wrapping_sum(old(self).counters().tasks_completed, 1),
                ..old(self).counters()
            }),
            final(self).stopped() == old(self).stopped(),
            final(self).shared() == old(self).shared(),
            final(self).peers() == old(self).peers(),
    {
        self.stats.record_completion();
    }

    /// Looks for a task: first in the executor's own queue, then in the
    /// shared queue, then in the queues of the other workers, in their order.
    fn find_task(&self) -> Option<Runnable> {
        let local = queue_pop(&self.queue);
        if local.is_some() {
            return local;
        }
        let shared = injector_steal(&self.injector);
        if shared.is_some() {
            return shared;
        }
        let mut i: usize = 0;
        while i < self.stealers.len()
            invariant
                i <= self.stealers.len(),
            decreases self.stealers.len() - i,
        {
            let stolen = stealer_steal(&self.stealers[i]);
            if stolen.is_some() {
                return stolen;
            }
            i = i + 1;
        }
        None
    }

    /// One tick: looks for a task and decides what happens to it as
    /// [`LocalExecutor::dispatch`] says. Whether a task is found rests with
    /// the queues, which other threads fill and empty.
    pub fn tick(&mut self, ctx: &WorkerContext, defensive: &mut DefensiveMode) -> (outcome: Tick)
        ensures
            final(self).stopped() == old(self).stopped(),
            final(self).shared() == old(self).shared(),
            final(self).peers() == old(self).peers(),
            outcome is Idle ==> final(self).counters() == old(self).counters()
                && final(defensive)@ == old(defensive)@,
            !(outcome is Idle) ==> {
                &&& outcome is Yield <==> checkpoint_yields(
                    ctx.depth() > 0,
                    old(defensive)@,
                    hint_pending(ctx.snapshot()),
                )
                &&& final(defensive)@ == checkpoint_defensive(ctx.depth() > 0, old(defensive)@)
                &&& final(self).counters() == (ExecutorStats {
                    polls: wrapping_sum(old(self).counters().polls, 1),
                    ..old(self).counters()
                }).after_decision(outcome is Yield, old(defensive)@.yields())
            },
            outcome matches Tick::Yield(pending) ==> pending.why() == checkpoint_reason(
                old(defensive)@,
            ),
    {
        let found = self.find_task();
        self.dispatch(found, ctx, defensive)
    }

    /// Decides what happens to what a search for a task gave. Without a task
    /// the executor is idle and nothing changes. A task is counted as a poll;
    /// if the executor has to yield first, the task goes back into the
    /// executor's own queue and the yield is handed out, else that very task
    /// is handed out to be polled.
    pub fn dispatch(
        &mut self,
        found: Option<Runnable>,
        ctx: &WorkerContext,
        defensive: &mut DefensiveMode,
    ) -> (outcome: Tick)
        ensures
            final(self).stopped() == old(self).stopped(),
            final(self).shared() == old(self).shared(),
            final(self).peers() == old(self).peers(),
            outcome is Idle <==> found is None,
            found is None ==> final(self).counters() == old(self).counters()
                && final(defensive)@ == old(defensive)@,
            found matches Some(task) ==> {
                &&& outcome is Yield <==> checkpoint_yields(
                    ctx.depth() > 0,
                    old(defensive)@,
                    hint_pending(ctx.snapshot()),
                )
                &&& outcome matches Tick::Run(handed) ==> handed == task
                &&& final(defensive)@ == checkpoint_defensive(ctx.depth() > 0, old(defensive)@)
                &&& final(self).counters() == (ExecutorStats {
                    polls: wrapping_sum(old(self).counters().polls, 1),
                    ..old(self).counters()
                }).after_decision(outcome is Yield, old(defensive)@.yields())
            },
            outcome matches Tick::Yield(pending) ==> pending.why() == checkpoint_reason(
                old(defensive)@,
            ),
    {
        match found {
            Some(task) => {
                match before_poll(ctx, defensive, &mut self.stats) {
                    TaskAction::Requeue(pending) => {
                        queue_push(&self.queue, task);
                        Tick::Yield(pending)
                    },
                    TaskAction::Run => Tick::Run(task),
                }
            },
            None => Tick::Idle,
        }
    }

    /// Requests shutdown.
    pub fn shutdown(&mut self)
        ensures
            final(self).stopped(),
            final(self).counters() == old(self).counters(),
            final(self).shared() == old(self).shared(),
            final(self).peers() == old(self).peers(),
    {
        self.shutdown = true;
    }

    /// Whether shutdown was requested.
    pub fn is_shutdown(&self) -> (stopped: bool)
        ensures
            stopped == self.stopped(),
    {
        self.shutdown
    }

    /// The counters.
    pub fn stats(&self) -> (stats: &ExecutorStats)
        ensures
            *stats == self.counters(),
    {
        &self.stats
    }
}

/// What a poll of [`YieldNow`] asks of its caller.
#[derive(Clone, Copy, Debug, PartialEq, Eq, Structural)]
pub enum YieldPoll {
    /// The task goes on.
    Ready,
    /// The task is to be woken at once and stays pending for now.
    WakeAndWait,
}

/// A task's one-time yield: pending at the first poll, ready from the second.
pub struct YieldNow {
    yielded: bool,
}

impl YieldNow {
    /// Whether the first poll has happened.
    pub closed spec fn polled(&self) -> bool {
        self.yielded
    }

    /// A yield that has not been polled.
    pub fn new() -> (pending: YieldNow)
        ensures
            !pending.polled(),
    {
        YieldNow { yielded: false }
    }

    /// Polls the yield.
    pub fn poll(&mut self) -> (answer: YieldPoll)
        ensures
            final(self).polled(),
            answer == if old(self).polled() {
                YieldPoll::Ready
            } else {
                YieldPoll::WakeAndWait
            },
    {
        if self.yielded {
            YieldPoll::Ready
        } else {
            self.yielded = true;
            YieldPoll::WakeAndWait
        }
    }
}

} // verus!
