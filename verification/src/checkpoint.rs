//! Checkpoints: the points at which a worker may yield.
//!
//! The synchronous checkpoint only decides. The cooperative checkpoint is
//! split in two around the yield, which the caller performs: first the
//! decision, then, after the worker has given up the CPU, the
//! acknowledgement. The kernel thus never sees an acknowledgement from a
//! worker that is still running.

use vstd::prelude::*;
use crate::common::YieldReason;
use crate::ringbuf::{DefensiveMode, DefensiveState};
use crate::scb::MorpheusScb;
use crate::worker::WorkerContext;

verus! {

/// Whether the kernel waits for this thread to acknowledge a hint. A thread
/// without a control block is never waited for.
pub open spec fn hint_pending(snapshot: Option<MorpheusScb>) -> bool {
    match snapshot {
        Some(scb) => scb.hint_pending(),
        None => false,
    }
}

/// The decision of a checkpoint: never inside a critical section; otherwise
/// when defensive mode is on or the kernel waits for an acknowledgement.
pub open spec fn checkpoint_yields(
    in_critical: bool,
    defensive: DefensiveState,
    pending: bool,
) -> bool {
    !in_critical && (defensive.yields() || pending)
}

/// What a checkpoint leaves of defensive mode: inside a critical section it is
/// not consulted; outside, the decision predicate is called once.
pub open spec fn checkpoint_defensive(
    in_critical: bool,
    defensive: DefensiveState,
) -> DefensiveState {
    if in_critical {
        defensive
    } else {
        defensive.stepped()
    }
}

/// Why a checkpoint yields: on account of defensive mode if that is on, else
/// on account of the kernel's hint.
pub open spec fn checkpoint_reason(defensive: DefensiveState) -> YieldReason {
    if defensive.yields() {
        YieldReason::Defensive
    } else {
        YieldReason::Hint
    }
}

/// The synchronous checkpoint: says whether the worker should yield now and
/// leaves the yielding to the caller. It never suspends, acknowledges nothing
/// and does not touch the control block. Inside a critical section the answer
/// is `false`, whatever else holds. Outside, defensive mode is asked, which
/// uses up one of its forced yields.
pub fn checkpoint_sync(ctx: &WorkerContext, defensive: &mut DefensiveMode) -> (should_yield: bool)
    ensures
        should_yield == checkpoint_yields(
            ctx.depth() > 0,
            old(defensive)@,
            hint_pending(ctx.snapshot()),
        ),
        ctx.depth() > 0 ==> !should_yield,
        final(defensive)@ == checkpoint_defensive(ctx.depth() > 0, old(defensive)@),
{
    if crate::critical::in_critical_section(ctx) {
        return false;
    }
    if defensive.should_yield() {
        return true;
    }
    match crate::worker::try_current_scb(ctx) {
        Some(handle) => handle.yield_requested(),
        None => false,
    }
}

/// A yield that a checkpoint asked for and that is not yet acknowledged.
///
/// The holder yields in the way of its language and then calls
/// [`PendingYield::complete`].
pub struct PendingYield {
    reason: YieldReason,
}

impl PendingYield {
    /// Why the worker yields.
    pub closed spec fn why(&self) -> YieldReason {
        self.reason
    }

    /// Why the worker yields.
    pub fn reason(&self) -> (reason: YieldReason)
        ensures
            reason == self.why(),
    {
        self.reason
    }

    /// Acknowledges after the yield: the acknowledged sequence becomes the
    /// preempt sequence and the ledger notes why the worker yielded. The
    /// result says whether a control block is bound.
    pub fn complete(self, ctx: &mut WorkerContext) -> (acknowledged: bool)
        ensures
            acknowledged == old(ctx).snapshot() is Some,
            final(ctx).snapshot() == match old(ctx).snapshot() {
                Some(scb) => Some(
                    MorpheusScb {
                        last_ack_seq: scb.preempt_seq,
                        last_yield_reason: self.why().code(),
                        ..scb
                    },
                ),
                None => None,
            },
            !hint_pending(final(ctx).snapshot()),
            final(ctx).id() == old(ctx).id(),
            final(ctx).depth() == old(ctx).depth(),
            final(ctx).wf(),
    {
        let acknowledged = ctx.acknowledge();
        ctx.record_yield(self.reason);
        acknowledged
    }
}

/// The first half of the cooperative checkpoint: decides as
/// [`checkpoint_sync`] does and, where the worker should yield, hands out the
/// yield to perform and acknowledge.
pub fn checkpoint_begin(ctx: &WorkerContext, defensive: &mut DefensiveMode) -> (pending: Option<
    PendingYield,
>)
    ensures
        pending is Some <==> checkpoint_yields(
            ctx.depth() > 0,
            old(defensive)@,
            hint_pending(ctx.snapshot()),
        ),
        pending matches Some(token) ==> token.why() == checkpoint_reason(old(defensive)@),
        final(defensive)@ == checkpoint_defensive(ctx.depth() > 0, old(defensive)@),
{
    let forced = defensive.is_active();
    if checkpoint_sync(ctx, defensive) {
        Some(pending_yield(forced))
    } else {
        None
    }
}

/// The yield that a checkpoint hands out: on account of defensive mode if
/// that was on, else on account of the kernel's hint.
pub(crate) fn pending_yield(defensive: bool) -> (pending: PendingYield)
    ensures
        pending.why() == if defensive {
            YieldReason::Defensive
        } else {
            YieldReason::Hint
        },
{
    PendingYield { reason: if defensive { YieldReason::Defensive } else { YieldReason::Hint } }
}

/// An unconditional yield: the worker gives up the CPU of its own accord and
/// acknowledges afterwards.
pub fn voluntary_yield() -> (pending: PendingYield)
    ensures
        pending.why() == YieldReason::Checkpoint,
{
    PendingYield { reason: YieldReason::Checkpoint }
}

/// Outside critical sections and with no hint pending, a run of checkpoints
/// yields for exactly as long as defensive mode has yields left: with
/// `n >= 1` left, the checkpoint after `calls` earlier ones yields if
/// `calls < n` and does not if `calls >= n`.
pub proof fn lemma_defensive_checkpoints(defensive: DefensiveState, calls: nat)
    requires
        defensive.active,
        !defensive.forced,
        defensive.yields_remaining >= 1,
    ensures
        checkpoint_yields(false, defensive.after(calls), false) == (calls
            < defensive.yields_remaining),
{
    crate::ringbuf::lemma_yields_exactly_remaining(defensive, calls);
}

/// Inside a critical section no checkpoint yields, and defensive mode keeps
/// its yields.
pub proof fn lemma_critical_suppresses(defensive: DefensiveState, pending: bool)
    ensures
        !checkpoint_yields(true, defensive, pending),
        checkpoint_defensive(true, defensive) == defensive,
{
}

} // verus!
