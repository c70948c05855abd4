//! The surface through which a language runtime takes part in the protocol.
//!
//! A runtime implements [`LanguageAdapter`] once. The trait fixes what the
//! operations decide; how a worker of that language gives up the CPU is left
//! to the caller, who yields between taking a [`PendingYield`] and completing
//! it.

use vstd::prelude::*;
use crate::checkpoint::{
    checkpoint_begin, checkpoint_defensive, checkpoint_reason, checkpoint_sync,
    checkpoint_yields, hint_pending, voluntary_yield, PendingYield,
};
use crate::common::YieldReason;
use crate::critical::{critical_section, CriticalGuard};
use crate::ringbuf::DefensiveMode;
use crate::scb::MorpheusScb;
use crate::worker::WorkerContext;

verus! {

/// The operations a language runtime offers its workers.
pub trait LanguageAdapter {
    /// A point at which the worker may yield but need not: the checkpoint
    /// decides, and where it says yield, the yield to perform is handed out.
    fn enter_safe_point(&self, ctx: &WorkerContext, defensive: &mut DefensiveMode) -> (pending:
        Option<PendingYield>)
        ensures
            pending is Some <==> checkpoint_yields(
                ctx.depth() > 0,
                old(defensive)@,
                hint_pending(ctx.snapshot()),
            ),
            pending matches Some(token) ==> token.why() == checkpoint_reason(old(defensive)@),
            final(defensive)@ == checkpoint_defensive(ctx.depth() > 0, old(defensive)@),
    ;

    /// An explicit checkpoint in CPU-heavy code. The result says whether the
    /// worker has to yield.
    fn enter_checkpoint(&self, ctx: &WorkerContext, defensive: &mut DefensiveMode) -> (should_yield:
        bool)
        ensures
            should_yield == checkpoint_yields(
                ctx.depth() > 0,
                old(defensive)@,
                hint_pending(ctx.snapshot()),
            ),
            final(defensive)@ == checkpoint_defensive(ctx.depth() > 0, old(defensive)@),
    ;

    /// Enters a critical section; see [`critical_section`].
    fn enter_critical(&self, ctx: &mut WorkerContext) -> (guard: CriticalGuard)
        requires
            old(ctx).depth() < u32::MAX,
        ensures
            guard.level() == old(ctx).depth() + 1,
            final(ctx).nesting() == old(ctx).nesting().enter(),
            final(ctx).nesting().flag == 1,
            final(ctx).id() == old(ctx).id(),
            final(ctx).snapshot() == match old(ctx).snapshot() {
                Some(scb) => Some(MorpheusScb { is_in_critical_section: 1, ..scb }),
                None => None,
            },
            final(ctx).wf(),
    ;

    /// An unconditional yield of the worker's own accord: hands out the
    /// yield to perform and acknowledge.
    fn yield_worker(&self) -> (pending: PendingYield)
        ensures
            pending.why() == YieldReason::Checkpoint,
    ;

    /// Whether workers of this language consent to escalation unless told
    /// otherwise. A language whose interpreter must not be interrupted says
    /// `false`.
    fn default_escapable(&self) -> bool;
}

/// The adapter of Rust runtimes. Rust workers can be preempted anywhere
/// outside critical sections, so they consent to escalation by default.
#[derive(Debug)]
pub struct RustAdapter;

impl Default for RustAdapter {
    fn default() -> RustAdapter {
        RustAdapter
    }
}

impl LanguageAdapter for RustAdapter {
    fn enter_safe_point(&self, ctx: &WorkerContext, defensive: &mut DefensiveMode) -> (pending:
        Option<PendingYield>) {
        checkpoint_begin(ctx, defensive)
    }

    fn enter_checkpoint(&self, ctx: &WorkerContext, defensive: &mut DefensiveMode) -> (should_yield:
        bool) {
        checkpoint_sync(ctx, defensive)
    }

    fn enter_critical(&self, ctx: &mut WorkerContext) -> (guard: CriticalGuard) {
        critical_section(ctx)
    }

    fn yield_worker(&self) -> (pending: PendingYield) {
        voluntary_yield()
    }

    fn default_escapable(&self) -> (escapable: bool)
        ensures
            escapable,
    {
        true
    }
}

/// The adapter of Python runtimes. The interpreter holds state that must not
/// be cut off in the middle, so Python workers yield at checkpoints only and
/// do not consent to escalation by default.
#[derive(Debug)]
pub struct PythonAdapter;

impl Default for PythonAdapter {
    fn default() -> PythonAdapter {
        PythonAdapter
    }
}

impl LanguageAdapter for PythonAdapter {
    fn enter_safe_point(&self, ctx: &WorkerContext, defensive: &mut DefensiveMode) -> (pending:
        Option<PendingYield>) {
        checkpoint_begin(ctx, defensive)
    }

    fn enter_checkpoint(&self, ctx: &WorkerContext, defensive: &mut DefensiveMode) -> (should_yield:
        bool) {
        checkpoint_sync(ctx, defensive)
    }

    fn enter_critical(&self, ctx: &mut WorkerContext) -> (guard: CriticalGuard) {
        critical_section(ctx)
    }

    fn yield_worker(&self) -> (pending: PendingYield) {
        voluntary_yield()
    }

    fn default_escapable(&self) -> (escapable: bool)
        ensures
            !escapable,
    {
        false
    }
}

/// The adapter of Rust runtimes.
pub fn rust_adapter() -> RustAdapter {
    RustAdapter
}

/// The adapter of Python runtimes.
pub fn python_adapter() -> PythonAdapter {
    PythonAdapter
}

} // verus!
