//! Critical sections: stretches of code during which the kernel must not
//! escalate and checkpoints do not yield.
//!
//! Sections nest. A thread counts how many are open; the critical flag of its
//! control block is set by the entry that opens the outermost section and
//! cleared by the exit that closes it.

use vstd::prelude::*;
use std::marker::PhantomData;
use std::rc::Rc;
use crate::scb::MorpheusScb;
use crate::worker::{Nesting, WorkerContext};

verus! {

/// The token of one open critical section.
///
/// It is handed out by [`critical_section`] and given back to
/// [`CriticalGuard::release`]. It cannot be copied and cannot leave the thread
/// it was made on.
pub struct CriticalGuard {
    marker: PhantomData<Rc<()>>,
    depth: u32,
}

impl CriticalGuard {
    /// The nesting depth at which this section was opened; the outermost
    /// section has level 1.
    pub closed spec fn level(&self) -> nat {
        self.depth as nat
    }

    /// The nesting depth at which this section was opened.
    pub fn depth(&self) -> (depth: u32)
        ensures
            depth == self.level(),
    {
        self.depth
    }

    /// Leaves the critical section. The depth goes down by one; the exit that
    /// brings it to zero clears the critical flag of the bound block, every
    /// other exit leaves the block as it is.
    ///
    /// A section must be open on the thread.
    pub fn release(self, ctx: &mut WorkerContext)
        requires
            old(ctx).depth() > 0,
        ensures
            final(ctx).nesting() == old(ctx).nesting().exit(),
            final(ctx).depth() == old(ctx).depth() - 1,
            final(ctx).id() == old(ctx).id(),
            final(ctx).snapshot() == match old(ctx).snapshot() {
                Some(scb) => Some(
                    MorpheusScb {
                        is_in_critical_section: if old(ctx).depth() == 1 {
                            0
                        } else {
                            1
                        },
                        ..scb
                    },
                ),
                None => None,
            },
            final(ctx).wf(),
    {
        ctx.exit_critical();
    }
}

/// Enters a critical section. The depth goes up by one; the entry that takes
/// it from zero sets the critical flag of the bound block. When this returns
/// the flag is set, and it stays set until the matching exit of the outermost
/// section.
///
/// The depth must be below `u32::MAX`.
pub fn critical_section(ctx: &mut WorkerContext) -> (guard: CriticalGuard)
    requires
        old(ctx).depth() < u32::MAX,
    ensures
        guard.level() == old(ctx).depth() + 1,
        final(ctx).nesting() == old(ctx).nesting().enter(),
        final(ctx).depth() == old(ctx).depth() + 1,
        final(ctx).nesting().flag == 1,
        final(ctx).id() == old(ctx).id(),
        final(ctx).snapshot() == match old(ctx).snapshot() {
            Some(scb) => Some(MorpheusScb { is_in_critical_section: 1, ..scb }),
            None => None,
        },
        final(ctx).wf(),
{
    let depth = ctx.enter_critical();
    CriticalGuard { marker: PhantomData, depth }
}

/// Whether a critical section is open on this thread.
pub fn in_critical_section(ctx: &WorkerContext) -> (inside: bool)
    ensures
        inside == (ctx.depth() > 0),
        ctx.snapshot() matches Some(scb) ==> inside == (scb.is_in_critical_section >= 1),
{
    proof {
        use_type_invariant(ctx);
    }
    ctx.critical_depth() > 0
}

/// One step of a thread through its critical sections.
pub enum CriticalOp {
    /// A section is entered.
    Enter,
    /// The innermost open section is left.
    Exit,
}

/// The state after one step.
pub open spec fn step(state: Nesting, op: CriticalOp) -> Nesting {
    match op {
        CriticalOp::Enter => state.enter(),
        CriticalOp::Exit => state.exit(),
    }
}

/// The state after all of `ops`, taken in order.
pub open spec fn run(state: Nesting, ops: Seq<CriticalOp>) -> Nesting
    decreases ops.len(),
{
    if ops.len() == 0 {
        state
    } else {
        run(step(state, ops[0]), ops.drop_first())
    }
}

/// How often the flag goes from 0 to 1 while `ops` are taken.
pub open spec fn rises(state: Nesting, ops: Seq<CriticalOp>) -> nat
    decreases ops.len(),
{
    if ops.len() == 0 {
        0
    } else {
        let next = step(state, ops[0]);
        let here: nat = if state.flag == 0 && next.flag == 1 { 1 } else { 0 };
        here + rises(next, ops.drop_first())
    }
}

/// How often the flag goes from 1 to 0 while `ops` are taken.
pub open spec fn falls(state: Nesting, ops: Seq<CriticalOp>) -> nat
    decreases ops.len(),
{
    if ops.len() == 0 {
        0
    } else {
        let next = step(state, ops[0]);
        let here: nat = if state.flag == 1 && next.flag == 0 { 1 } else { 0 };
        here + falls(next, ops.drop_first())
    }
}

/// `ops`, started at `depth`, close what they open and what was open before,
/// and reach depth zero with the last step only: every exit has a section to
/// leave, and the steps are those of one outermost section with whatever is
/// nested in it.
pub open spec fn encloses(depth: nat, ops: Seq<CriticalOp>) -> bool
    decreases ops.len(),
{
    if ops.len() == 0 {
        depth == 0
    } else {
        match ops[0] {
            CriticalOp::Enter => encloses(depth + 1, ops.drop_first()),
            CriticalOp::Exit => depth > 0 && (depth == 1 ==> ops.len() == 1) && encloses(
                (depth - 1) as nat,
                ops.drop_first(),
            ),
        }
    }
}

proof fn lemma_inside_section(state: Nesting, ops: Seq<CriticalOp>)
    requires
        state.depth > 0,
        state.flag == 1,
        encloses(state.depth, ops),
    ensures
        rises(state, ops) == 0,
        falls(state, ops) == 1,
        run(state, ops) == (Nesting { depth: 0, flag: 0 }),
    decreases ops.len(),
{
    if ops.len() > 0 {
        let next = step(state, ops[0]);
        let rest = ops.drop_first();
        if next.depth > 0 {
            lemma_inside_section(next, rest);
        } else {
            assert(rest.len() == 0);
            assert(rises(next, rest) == 0);
            assert(falls(next, rest) == 0);
            assert(run(next, rest) == next);
        }
    }
}

proof fn lemma_flag_held_inside(state: Nesting, ops: Seq<CriticalOp>, k: int)
    requires
        state.depth > 0,
        state.flag == 1,
        encloses(state.depth, ops),
        0 <= k < ops.len(),
    ensures
        run(state, ops.take(k)).depth > 0,
        run(state, ops.take(k)).flag == 1,
    decreases ops.len(),
{
    if k > 0 {
        let next = step(state, ops[0]);
        assert(ops.take(k)[0] == ops[0]);
        assert(ops.take(k).drop_first() =~= ops.drop_first().take(k - 1));
        lemma_flag_held_inside(next, ops.drop_first(), k - 1);
    } else {
        assert(ops.take(0).len() == 0);
    }
}

/// However many sections are nested in one outermost section, the critical
/// flag goes up exactly once and down exactly once, and the thread ends as it
/// began: with no section open and the flag clear.
pub proof fn lemma_flag_toggles_once(ops: Seq<CriticalOp>)
    requires
        ops.len() > 0,
        encloses(0, ops),
    ensures
        rises(Nesting { depth: 0, flag: 0 }, ops) == 1,
        falls(Nesting { depth: 0, flag: 0 }, ops) == 1,
        run(Nesting { depth: 0, flag: 0 }, ops) == (Nesting { depth: 0, flag: 0 }),
{
    let start = Nesting { depth: 0, flag: 0 };
    lemma_inside_section(step(start, ops[0]), ops.drop_first());
}

/// From the first entry until the exit that closes the outermost section the
/// critical flag is set: after any `k` of the steps, `0 < k < ops.len()`, a
/// section is open and the flag is 1.
pub proof fn lemma_flag_set_until_last_exit(ops: Seq<CriticalOp>, k: int)
    requires
        encloses(0, ops),
        0 < k < ops.len(),
    ensures
        run(Nesting { depth: 0, flag: 0 }, ops.take(k)).depth > 0,
        run(Nesting { depth: 0, flag: 0 }, ops.take(k)).flag == 1,
{
    let start = Nesting { depth: 0, flag: 0 };
    assert(ops.take(k)[0] == ops[0]);
    assert(ops.take(k).drop_first() =~= ops.drop_first().take(k - 1));
    lemma_flag_held_inside(step(start, ops[0]), ops.drop_first(), k - 1);
}

} // verus!
