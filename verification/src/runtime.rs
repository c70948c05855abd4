//! The runtime: configuration, the hint consumer, defensive mode and the
//! worker pool under one roof.

use vstd::prelude::*;
use crate::checkpoint::{
    checkpoint_begin, checkpoint_defensive, checkpoint_reason, checkpoint_sync, checkpoint_yields,
    hint_pending, PendingYield,
};
use crate::common::RuntimeMode;
use crate::config::{DEFAULT_DEFENSIVE_YIELDS, DEFAULT_POLL_TIMEOUT_MS};
use crate::ringbuf::{gap, ConsumerState, DefensiveMode, DefensiveState, HintConsumer};
use crate::time::{TimeSpan, NANOS_PER_MILLI};
use crate::wire::{hint_at, parse_hint, HINT_SIZE};
use crate::worker::{WorkerConfig, WorkerContext, WorkerPool};

verus! {

/// How a runtime is set up.
#[derive(Debug)]
pub struct RuntimeConfig {
    /// The worker pool.
    pub workers: WorkerConfig,
    /// Forced yields that one entry into defensive mode grants.
    pub defensive_yields: u64,
    /// How long one poll of the hint ring may wait.
    pub poll_timeout: TimeSpan,
}

impl RuntimeConfig {
    /// The configuration of a runtime that nobody configured: the standard
    /// pool, 100 defensive yields, a poll timeout of one millisecond.
    pub open spec fn standard(config: RuntimeConfig) -> bool {
        &&& WorkerConfig::standard(config.workers)
        &&& config.defensive_yields == DEFAULT_DEFENSIVE_YIELDS
        &&& config.poll_timeout@ == DEFAULT_POLL_TIMEOUT_MS * NANOS_PER_MILLI
    }
}

impl Default for RuntimeConfig {
    fn default() -> (config: RuntimeConfig)
        ensures
            RuntimeConfig::standard(config),
    {
        RuntimeConfig {
            workers: WorkerConfig::default(),
            defensive_yields: DEFAULT_DEFENSIVE_YIELDS,
            poll_timeout: TimeSpan::from_millis(DEFAULT_POLL_TIMEOUT_MS),
        }
    }
}

impl Clone for RuntimeConfig {
    fn clone(&self) -> (copy: RuntimeConfig)
        ensures
            copy == *self,
    {
        RuntimeConfig {
            workers: self.workers.clone(),
            defensive_yields: self.defensive_yields,
            poll_timeout: self.poll_timeout,
        }
    }
}

/// Builds a runtime step by step.
pub struct Builder {
    config: RuntimeConfig,
}

impl Builder {
    /// The configuration built so far.
    pub closed spec fn settings(&self) -> RuntimeConfig {
        self.config
    }

    /// Starts from the standard configuration.
    pub fn new() -> (builder: Builder)
        ensures
            RuntimeConfig::standard(builder.settings()),
    {
        Builder { config: RuntimeConfig::default() }
    }

    /// Sets the number of workers.
    pub fn num_workers(self, n: usize) -> (builder: Builder)
        ensures
            builder.settings() == (RuntimeConfig {
                workers: WorkerConfig { num_workers: n, ..self.settings().workers },
                ..self.settings()
            }),
    {
        let mut builder = self;
        builder.config.workers.num_workers = n;
        builder
    }

    /// Sets whether the workers consent to escalation: `true` lets the kernel
    /// act against a worker that ignores its hints, `false` forbids it.
    pub fn escapable(self, escapable: bool) -> (builder: Builder)
        ensures
            builder.settings() == (RuntimeConfig {
                workers: WorkerConfig { escapable, ..self.settings().workers },
                ..self.settings()
            }),
    {
        let mut builder = self;
        builder.config.workers.escapable = escapable;
        builder
    }

    /// Sets the number of forced yields that one entry into defensive mode
    /// grants.
    pub fn defensive_yields(self, count: u64) -> (builder: Builder)
        ensures
            builder.settings() == (RuntimeConfig { defensive_yields: count, ..self.settings() }),
    {
        let mut builder = self;
        builder.config.defensive_yields = count;
        builder
    }

    /// Sets how long one poll of the hint ring may wait.
    pub fn poll_timeout(self, timeout: TimeSpan) -> (builder: Builder)
        ensures
            builder.settings() == (RuntimeConfig { poll_timeout: timeout, ..self.settings() }),
    {
        let mut builder = self;
        builder.config.poll_timeout = timeout;
        builder
    }

    /// Builds the runtime. It is not running and has no worker pool yet.
    pub fn build(self) -> (runtime: Runtime)
        ensures
            runtime.settings() == self.settings(),
            Runtime::fresh(runtime),
    {
        Runtime::new(self.config)
    }
}

impl Default for Builder {
    fn default() -> (builder: Builder)
        ensures
            RuntimeConfig::standard(builder.settings()),
    {
        Builder::new()
    }
}

/// A runtime.
pub struct Runtime {
    config: RuntimeConfig,
    workers: Option<WorkerPool>,
    defensive: DefensiveMode,
    hints: HintConsumer,
    running: bool,
}

impl Runtime {
    /// The configuration the runtime was made with.
    pub closed spec fn settings(&self) -> RuntimeConfig {
        self.config
    }

    /// The state of defensive mode.
    pub closed spec fn defensive_state(&self) -> DefensiveState {
        self.defensive@
    }

    /// The state of the hint consumer.
    pub closed spec fn consumer_state(&self) -> ConsumerState {
        self.hints@
    }

    /// Whether the runtime was started and not shut down since.
    pub closed spec fn running(&self) -> bool {
        self.running
    }

    /// The worker pool, once the runtime was started.
    pub closed spec fn pool(&self) -> Option<WorkerPool> {
        self.workers
    }

    /// What holds of a runtime that was just made: it is not running, has no
    /// pool, has read no hint, and its defensive mode is off and grants the
    /// configured number of yields.
    pub open spec fn fresh(runtime: Runtime) -> bool {
        &&& !runtime.running()
        &&& runtime.pool() is None
        &&& runtime.consumer_state() == HintConsumer::fresh(runtime.consumer_state().order)
        &&& runtime.defensive_state() == (DefensiveState {
            active: false,
            yields_remaining: 0,
            default_yields: runtime.settings().defensive_yields,
            forced: false,
        })
    }

    /// The label of the hint activity seen in a state: defensive while
    /// defensive mode is on, else pressured once a hint has arrived, else
    /// deterministic.
    pub open spec fn mode_of(defensive: DefensiveState, hints: ConsumerState) -> RuntimeMode {
        if defensive.yields() {
            RuntimeMode::Defensive
        } else if hints.stats.hints_received > 0 {
            RuntimeMode::Pressured
        } else {
            RuntimeMode::Deterministic
        }
    }

    /// Creates a runtime with the given configuration.
    pub fn new(config: RuntimeConfig) -> (runtime: Runtime)
        ensures
            runtime.settings() == config,
            Runtime::fresh(runtime),
    {
        Runtime {
            defensive: DefensiveMode::new(config.defensive_yields),
            config,
            workers: None,
            hints: HintConsumer::new(),
            running: false,
        }
    }

    /// The configuration the runtime was made with.
    pub fn config(&self) -> (config: &RuntimeConfig)
        ensures
            *config == self.settings(),
    {
        &self.config
    }

    /// Whether the runtime was started and not shut down since.
    pub fn is_running(&self) -> (running: bool)
        ensures
            running == self.running(),
    {
        self.running
    }

    /// The hint consumer.
    pub fn hints(&self) -> (hints: &HintConsumer)
        ensures
            hints@ == self.consumer_state(),
    {
        &self.hints
    }

    /// Defensive mode.
    pub fn defensive(&self) -> (defensive: &DefensiveMode)
        ensures
            defensive@ == self.defensive_state(),
    {
        &self.defensive
    }

    /// Defensive mode, to be changed by a worker's executor. Whatever is done
    /// through the reference is done to the runtime's defensive mode and to
    /// nothing else of the runtime.
    pub fn defensive_mut(&mut self) -> (defensive: &mut DefensiveMode)
        ensures
            defensive@ == old(self).defensive_state(),
            final(self).defensive_state() == final(defensive)@,
            final(self).settings() == old(self).settings(),
            final(self).running() == old(self).running(),
            final(self).pool() == old(self).pool(),
            final(self).consumer_state() == old(self).consumer_state(),
    {
        &mut self.defensive
    }

    /// The worker pool, once the runtime was started.
    pub fn workers(&self) -> (pool: Option<&WorkerPool>)
        ensures
            pool is Some <==> self.pool() is Some,
            pool matches Some(found) ==> self.pool() == Some(*found),
    {
        self.workers.as_ref()
    }

    /// The label of the hint activity the runtime sees now.
    pub fn mode(&self) -> (mode: RuntimeMode)
        ensures
            mode == Runtime::mode_of(self.defensive_state(), self.consumer_state()),
    {
        if self.defensive.is_active() {
            RuntimeMode::Defensive
        } else if self.hints.stats().hints_received > 0 {
            RuntimeMode::Pressured
        } else {
            RuntimeMode::Deterministic
        }
    }

    /// Starts the runtime: it is running, and it has a worker pool, made from
    /// its configuration unless one is there already.
    pub fn start(&mut self)
        ensures
            final(self).running(),
            final(self).settings() == old(self).settings(),
            final(self).defensive_state() == old(self).defensive_state(),
            final(self).consumer_state() == old(self).consumer_state(),
            old(self).pool() is Some ==> final(self).pool() == old(self).pool(),
            old(self).pool() is None ==> (final(self).pool() matches Some(pool)
                && pool.members().len() == 0 && pool.settings() == old(self).settings().workers
                && !pool.stopped()),
    {
        if self.workers.is_none() {
            self.workers = Some(WorkerPool::new(self.config.workers.clone()));
        }
        self.running = true;
    }

    /// Takes one payload from the hint ring. The consumer takes it as
    /// [`HintConsumer::process_hint`] does; if records are missing before it,
    /// defensive mode is entered with the full number of yields. The result is
    /// always 0, the ring's sign to go on.
    pub fn process_hint(&mut self, data: &[u8]) -> (verdict: i32)
        ensures
            verdict == 0,
            final(self).settings() == old(self).settings(),
            final(self).running() == old(self).running(),
            final(self).pool() == old(self).pool(),
            data.len() < HINT_SIZE ==> final(self).consumer_state() == old(self).consumer_state()
                && final(self).defensive_state() == old(self).defensive_state(),
            data.len() >= HINT_SIZE ==> {
                let seq = hint_at(data@, old(self).consumer_state().order).seq;
                &&& final(self).consumer_state() == old(self).consumer_state().absorb(seq)
                &&& final(self).defensive_state() == if gap(
                    old(self).consumer_state().last_seq,
                    seq,
                ) > 0 {
                    old(self).defensive_state().entered()
                } else {
                    old(self).defensive_state()
                }
            },
    {
        match parse_hint(data, self.hints.byte_order()) {
            Some(hint) => {
                let lost = self.hints.missing_before(&hint) > 0;
                self.hints.record(&hint);
                if lost {
                    self.defensive.enter();
                }
            },
            None => {},
        }
        0
    }

    /// Notes that the hint ring cannot be read any more: the consumer is
    /// defensive for good and defensive mode is forced on.
    pub fn ring_failed(&mut self)
        ensures
            final(self).settings() == old(self).settings(),
            final(self).running() == old(self).running(),
            final(self).pool() == old(self).pool(),
            final(self).consumer_state() == old(self).consumer_state().lost(),
            final(self).defensive_state() == (DefensiveState {
                forced: true,
                ..old(self).defensive_state()
            }),
    {
        self.hints.ring_failed();
        self.defensive.force();
    }

    /// The synchronous checkpoint of a worker of this runtime; see
    /// [`checkpoint_sync`].
    pub fn checkpoint(&mut self, ctx: &WorkerContext) -> (should_yield: bool)
        ensures
            should_yield == checkpoint_yields(
                ctx.depth() > 0,
                old(self).defensive_state(),
                hint_pending(ctx.snapshot()),
            ),
            final(self).defensive_state() == checkpoint_defensive(
                ctx.depth() > 0,
                old(self).defensive_state(),
            ),
            final(self).settings() == old(self).settings(),
            final(self).running() == old(self).running(),
            final(self).pool() == old(self).pool(),
            final(self).consumer_state() == old(self).consumer_state(),
    {
        checkpoint_sync(ctx, &mut self.defensive)
    }

    /// The first half of the cooperative checkpoint of a worker of this
    /// runtime; see [`checkpoint_begin`].
    pub fn checkpoint_begin(&mut self, ctx: &WorkerContext) -> (pending: Option<PendingYield>)
        ensures
            pending is Some <==> checkpoint_yields(
                ctx.depth() > 0,
                old(self).defensive_state(),
                hint_pending(ctx.snapshot()),
            ),
            pending matches Some(token) ==> token.why() == checkpoint_reason(
                old(self).defensive_state(),
            ),
            final(self).defensive_state() == checkpoint_defensive(
                ctx.depth() > 0,
                old(self).defensive_state(),
            ),
            final(self).settings() == old(self).settings(),
            final(self).running() == old(self).running(),
            final(self).pool() == old(self).pool(),
            final(self).consumer_state() == old(self).consumer_state(),
    {
        checkpoint_begin(ctx, &mut self.defensive)
    }

    /// Shuts the runtime down: it is no longer running and its pool, if it
    /// has one, allocates no worker any more.
    pub fn shutdown(&mut self)
        ensures
            !final(self).running(),
            final(self).settings() == old(self).settings(),
            final(self).defensive_state() == old(self).defensive_state(),
            final(self).consumer_state() == old(self).consumer_state(),
            final(self).pool() is Some <==> old(self).pool() is Some,
            final(self).pool() matches Some(pool) ==> pool.stopped() && pool.members() == old(
                self,
            ).pool().unwrap().members(),
    {
        self.running = false;
        let mut held: Option<WorkerPool> = None;
        std::mem::swap(&mut self.workers, &mut held);
        match held {
            Some(mut pool) => {
                pool.shutdown();
                self.workers = Some(pool);
            },
            None => {},
        }
    }
}

/// Puts a runtime with the given configuration into the process-wide slot.
/// A runtime that was there before is dropped.
pub fn init(slot: &mut Option<Runtime>, config: RuntimeConfig)
    ensures
        *final(slot) matches Some(runtime) && runtime.settings() == config && Runtime::fresh(
            runtime,
        ),
{
    *slot = Some(Runtime::new(config));
}

/// Takes the runtime out of the process-wide slot and shuts it down. The
/// result is the runtime that was shut down, if there was one.
pub fn shutdown(slot: &mut Option<Runtime>) -> (stopped: Option<Runtime>)
    ensures
        *final(slot) is None,
        stopped is Some <==> *old(slot) is Some,
        stopped matches Some(runtime) ==> !runtime.running() && runtime.settings() == old(
            slot,
        ).unwrap().settings(),
{
    let mut held: Option<Runtime> = None;
    std::mem::swap(slot, &mut held);
    match held {
        Some(mut runtime) => {
            runtime.shutdown();
            Some(runtime)
        },
        None => None,
    }
}

} // verus!
