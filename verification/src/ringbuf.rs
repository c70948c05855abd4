//! The consumer of the kernel's hint ring and the defensive mode it drives.
//!
//! One thread drains the ring. Each record carries the next sequence number;
//! a jump in the numbers means that records were lost. Lost hints are made up
//! for by defensive mode: for a number of checkpoints every worker yields
//! whether or not the kernel asked.

use vstd::prelude::*;
use crate::common::MorpheusHint;
use crate::wire::{hint_at, parse_hint, ByteOrder, HINT_SIZE};

verus! {

/// Counters of the hint consumer. They wrap around at `u64::MAX`.
#[derive(Clone, Copy, Debug, PartialEq, Eq, Structural)]
pub struct RingBufStats {
    /// Records taken from the ring.
    pub hints_received: u64,
    /// Records that never arrived, counted from the jumps in the sequence.
    pub hints_dropped: u64,
    /// Times the consumer turned defensive.
    pub defensive_triggers: u64,
}

/// `a + b` as a 64-bit counter holds it.
pub open spec fn wrapping_sum(a: u64, b: u64) -> u64 {
    if a + b > u64::MAX {
        (a + b - 0x1_0000_0000_0000_0000) as u64
    } else {
        (a + b) as u64
    }
}

/// How many records are missing between the record numbered `last` and the
/// record numbered `seq` that follows it in the ring. Before the first record
/// (`last == 0`) nothing can be missing.
pub open spec fn gap(last: u64, seq: u64) -> nat {
    if last > 0 && seq > last + 1 {
        (seq - last - 1) as nat
    } else {
        0
    }
}

/// How many records are missing from a stream of sequence numbers that is
/// read after the record numbered `last`.
pub open spec fn gaps(last: u64, seqs: Seq<u64>) -> nat
    decreases seqs.len(),
{
    if seqs.len() == 0 {
        0
    } else {
        gap(last, seqs[0]) + gaps(seqs[0], seqs.drop_first())
    }
}

/// What a hint consumer knows.
pub struct ConsumerState {
    /// Sequence number of the record read last; 0 before the first.
    pub last_seq: u64,
    /// Whether lost hints were detected and not yet reset.
    pub defensive: bool,
    /// Whether the ring was given up as unreachable.
    pub ring_lost: bool,
    /// The counters.
    pub stats: RingBufStats,
    /// Byte order of the records.
    pub order: ByteOrder,
}

impl ConsumerState {
    /// The state after a record numbered `seq` was read.
    pub open spec fn absorb(self, seq: u64) -> ConsumerState {
        let missing = gap(self.last_seq, seq);
        ConsumerState {
            last_seq: seq,
            defensive: self.defensive || missing > 0,
            ring_lost: self.ring_lost,
            stats: RingBufStats {
                hints_received: wrapping_sum(self.stats.hints_received, 1),
                hints_dropped: wrapping_sum(self.stats.hints_dropped, missing as u64),
                defensive_triggers: if missing > 0 && !self.defensive {
                    wrapping_sum(self.stats.defensive_triggers, 1)
                } else {
                    self.stats.defensive_triggers
                },
            },
            order: self.order,
        }
    }

    /// The state after the ring was given up as unreachable: the consumer is
    /// defensive for good, and the trigger counter went up if it was not
    /// defensive before.
    pub open spec fn lost(self) -> ConsumerState {
        ConsumerState {
            ring_lost: true,
            stats: RingBufStats {
                defensive_triggers: if self.defensive || self.ring_lost {
                    self.stats.defensive_triggers
                } else {
                    wrapping_sum(self.stats.defensive_triggers, 1)
                },
                ..self.stats
            },
            ..self
        }
    }

    /// The state after records with the numbers `seqs` were read in order.
    pub open spec fn absorb_all(self, seqs: Seq<u64>) -> ConsumerState
        decreases seqs.len(),
    {
        if seqs.len() == 0 {
            self
        } else {
            self.absorb(seqs[0]).absorb_all(seqs.drop_first())
        }
    }
}

/// The state of the thread that drains the hint ring.
pub struct HintConsumer {
    last_seq: u64,
    defensive_mode: bool,
    ring_lost: bool,
    stats: RingBufStats,
    order: ByteOrder,
}

impl View for HintConsumer {
    type V = ConsumerState;

    closed spec fn view(&self) -> ConsumerState {
        ConsumerState {
            last_seq: self.last_seq,
            defensive: self.defensive_mode,
            ring_lost: self.ring_lost,
            stats: self.stats,
            order: self.order,
        }
    }
}

impl HintConsumer {
    /// The state of a consumer that has read nothing.
    pub open spec fn fresh(order: ByteOrder) -> ConsumerState {
        ConsumerState {
            last_seq: 0,
            defensive: false,
            ring_lost: false,
            stats: RingBufStats { hints_received: 0, hints_dropped: 0, defensive_triggers: 0 },
            order,
        }
    }

    /// Creates a consumer for records in the byte order of this machine.
    pub fn new() -> (consumer: HintConsumer)
        ensures
            consumer@ == HintConsumer::fresh(consumer@.order),
    {
        HintConsumer::with_byte_order(ByteOrder::native())
    }

    /// Creates a consumer for records in the given byte order.
    pub fn with_byte_order(order: ByteOrder) -> (consumer: HintConsumer)
        ensures
            consumer@ == HintConsumer::fresh(order),
    {
        HintConsumer {
            last_seq: 0,
            defensive_mode: false,
            ring_lost: false,
            stats: RingBufStats { hints_received: 0, hints_dropped: 0, defensive_triggers: 0 },
            order,
        }
    }

    /// Whether the consumer is defensive: it detected lost hints that were not
    /// reset since, or it gave the ring up.
    pub fn is_defensive(&self) -> (defensive: bool)
        ensures
            defensive == (self@.defensive || self@.ring_lost),
    {
        self.defensive_mode || self.ring_lost
    }

    /// The counters.
    pub fn stats(&self) -> (stats: &RingBufStats)
        ensures
            *stats == self@.stats,
    {
        &self.stats
    }

    /// The flag that workers look at; the same as [`HintConsumer::is_defensive`].
    pub fn defensive_flag(&self) -> (flag: bool)
        ensures
            flag == (self@.defensive || self@.ring_lost),
    {
        self.is_defensive()
    }

    /// Sequence number of the record read last; 0 before the first.
    pub fn last_seq(&self) -> (seq: u64)
        ensures
            seq == self@.last_seq,
    {
        self.last_seq
    }

    /// Byte order of the records this consumer reads.
    pub fn byte_order(&self) -> (order: ByteOrder)
        ensures
            order == self@.order,
    {
        self.order
    }

    /// How many records are missing between the record read last and `hint`.
    pub fn missing_before(&self, hint: &MorpheusHint) -> (missing: u64)
        ensures
            missing == gap(self@.last_seq, hint.seq),
    {
        let last = self.last_seq;
        if last > 0 && hint.seq > last && hint.seq - last > 1 {
            hint.seq - last - 1
        } else {
            0
        }
    }

    /// Takes one record that was already read from the ring: counts it, counts
    /// the records missing before it, turns defensive if any are missing, and
    /// remembers its sequence number.
    pub fn record(&mut self, hint: &MorpheusHint)
        ensures
            final(self)@ == old(self)@.absorb(hint.seq),
    {
        self.stats.hints_received = self.stats.hints_received.wrapping_add(1);
        let dropped = self.missing_before(hint);
        if dropped > 0 {
            self.stats.hints_dropped = self.stats.hints_dropped.wrapping_add(dropped);
            if !self.defensive_mode {
                self.defensive_mode = true;
                self.stats.defensive_triggers = self.stats.defensive_triggers.wrapping_add(1);
            }
        }
        self.last_seq = hint.seq;
    }

    /// Takes one payload from the ring. A payload shorter than a hint record
    /// is discarded and changes nothing; any other is read as a record and
    /// taken as [`HintConsumer::record`] takes it. The result is always 0, the
    /// ring's sign to go on.
    pub fn process_hint(&mut self, data: &[u8]) -> (verdict: i32)
        ensures
            verdict == 0,
            data.len() < HINT_SIZE ==> final(self)@ == old(self)@,
            data.len() >= HINT_SIZE ==> final(self)@ == old(self)@.absorb(
                hint_at(data@, old(self)@.order).seq,
            ),
    {
        match parse_hint(data, self.order) {
            Some(hint) => {
                self.record(&hint);
            },
            None => {},
        }
        0
    }

    /// Ends the defensive state after a quiet period. A consumer that gave the
    /// ring up stays defensive.
    pub fn reset_defensive(&mut self)
        ensures
            final(self)@ == (ConsumerState { defensive: false, ..old(self)@ }),
    {
        self.defensive_mode = false;
    }

    /// Notes that the ring cannot be read any more. The consumer is defensive
    /// from now on and no reset ends that; the trigger counter goes up if it
    /// was not defensive before.
    pub fn ring_failed(&mut self)
        ensures
            final(self)@ == old(self)@.lost(),
    {
        if !self.defensive_mode && !self.ring_lost {
            self.stats.defensive_triggers = self.stats.defensive_triggers.wrapping_add(1);
        }
        self.ring_lost = true;
    }
}

impl Default for HintConsumer {
    fn default() -> (consumer: HintConsumer)
        ensures
            consumer@ == HintConsumer::fresh(consumer@.order),
    {
        HintConsumer::new()
    }
}

/// In a stream whose numbers only grow, what is counted as missing is what is
/// missing: with `first` the first number and `last` the last, the stream
/// lacks `last - first + 1 - seqs.len()` of the numbers from `first` to
/// `last`, and that is the sum of the gaps.
pub proof fn lemma_gaps_count_missing(seqs: Seq<u64>)
    requires
        seqs.len() > 0,
        seqs[0] > 0,
        forall|i: int, j: int| 0 <= i < j < seqs.len() ==> seqs[i] < seqs[j],
    ensures
        gaps(0, seqs) == seqs.last() - seqs[0] + 1 - seqs.len(),
{
    lemma_gaps_after(seqs[0], seqs.drop_first());
    assert(seqs.drop_first().len() > 0 ==> seqs.drop_first().last() == seqs.last());
}

proof fn lemma_gaps_after(last: u64, seqs: Seq<u64>)
    requires
        last > 0,
        forall|i: int| 0 <= i < seqs.len() ==> last < seqs[i],
        forall|i: int, j: int| 0 <= i < j < seqs.len() ==> seqs[i] < seqs[j],
    ensures
        gaps(last, seqs) == if seqs.len() == 0 {
            0
        } else {
            seqs.last() - last - seqs.len()
        },
    decreases seqs.len(),
{
    if seqs.len() > 0 {
        let rest = seqs.drop_first();
        assert forall|i: int| 0 <= i < rest.len() implies seqs[0] < rest[i] by {
            assert(rest[i] == seqs[i + 1]);
        }
        assert forall|i: int, j: int| 0 <= i < j < rest.len() implies rest[i] < rest[j] by {
            assert(rest[i] == seqs[i + 1]);
            assert(rest[j] == seqs[j + 1]);
        }
        lemma_gaps_after(seqs[0], rest);
        if rest.len() > 0 {
            assert(rest.last() == seqs.last());
        }
    }
}

/// What a consumer counts as dropped over a whole stream is the sum of the
/// gaps in it, as long as the counter does not wrap around.
pub proof fn lemma_dropped_is_sum_of_gaps(state: ConsumerState, seqs: Seq<u64>)
    requires
        state.stats.hints_dropped + gaps(state.last_seq, seqs) <= u64::MAX,
    ensures
        state.absorb_all(seqs).stats.hints_dropped == state.stats.hints_dropped + gaps(
            state.last_seq,
            seqs,
        ),
        state.absorb_all(seqs).defensive == (state.defensive || gaps(state.last_seq, seqs) > 0),
    decreases seqs.len(),
{
    if seqs.len() > 0 {
        lemma_dropped_is_sum_of_gaps(state.absorb(seqs[0]), seqs.drop_first());
    }
}

/// The state of defensive mode.
pub struct DefensiveState {
    /// Whether forced yields are being handed out.
    pub active: bool,
    /// Forced yields still to hand out.
    pub yields_remaining: u64,
    /// Forced yields that one entry grants.
    pub default_yields: u64,
    /// Whether the mode was forced on for good.
    pub forced: bool,
}

impl DefensiveState {
    /// The state after an entry: active, with the full number of yields.
    pub open spec fn entered(self) -> DefensiveState {
        DefensiveState { active: true, yields_remaining: self.default_yields, ..self }
    }

    /// The state after an explicit exit: inactive, with no yields left.
    pub open spec fn exited(self) -> DefensiveState {
        DefensiveState { active: false, yields_remaining: 0, ..self }
    }

    /// Whether a checkpoint yields on account of this state.
    pub open spec fn yields(self) -> bool {
        self.active || self.forced
    }

    /// The state after one call of the decision predicate: an active mode
    /// hands out one yield and turns inactive with its last one.
    pub open spec fn stepped(self) -> DefensiveState {
        if self.forced || !self.active {
            self
        } else {
            DefensiveState {
                active: self.yields_remaining > 1,
                yields_remaining: if self.yields_remaining > 0 {
                    (self.yields_remaining - 1) as u64
                } else {
                    0
                },
                ..self
            }
        }
    }

    /// The state after `calls` calls of the decision predicate.
    pub open spec fn after(self, calls: nat) -> DefensiveState
        decreases calls,
    {
        if calls == 0 {
            self
        } else {
            self.stepped().after((calls - 1) as nat)
        }
    }
}

/// Defensive mode: while it is active every checkpoint yields.
pub struct DefensiveMode {
    active: bool,
    yields_remaining: u64,
    default_yields: u64,
    forced: bool,
}

impl View for DefensiveMode {
    type V = DefensiveState;

    closed spec fn view(&self) -> DefensiveState {
        DefensiveState {
            active: self.active,
            yields_remaining: self.yields_remaining,
            default_yields: self.default_yields,
            forced: self.forced,
        }
    }
}

impl DefensiveMode {
    /// Creates an inactive mode whose entries grant `default_yields` yields.
    pub fn new(default_yields: u64) -> (mode: DefensiveMode)
        ensures
            mode@ == (DefensiveState {
                active: false,
                yields_remaining: 0,
                default_yields,
                forced: false,
            }),
    {
        DefensiveMode { active: false, yields_remaining: 0, default_yields, forced: false }
    }

    /// Enters defensive mode with the full number of yields, whatever the
    /// state was.
    pub fn enter(&mut self)
        ensures
            final(self)@ == old(self)@.entered(),
    {
        self.active = true;
        self.yields_remaining = self.default_yields;
    }

    /// The decision predicate: whether the caller has to yield. An active
    /// mode answers `true` and uses up one yield; with its last yield it turns
    /// inactive. A mode that was forced on answers `true` and uses up nothing.
    pub fn should_yield(&mut self) -> (should: bool)
        ensures
            should == old(self)@.yields(),
            final(self)@ == old(self)@.stepped(),
    {
        if self.forced {
            return true;
        }
        if !self.active {
            return false;
        }
        let remaining = self.yields_remaining;
        if remaining > 0 {
            self.yields_remaining = remaining - 1;
        }
        if remaining <= 1 {
            self.active = false;
        }
        true
    }

    /// Whether checkpoints yield on account of this mode.
    pub fn is_active(&self) -> (active: bool)
        ensures
            active == self@.yields(),
    {
        self.active || self.forced
    }

    /// Leaves defensive mode and drops the yields that are left. A mode that
    /// was forced on stays on.
    pub fn exit(&mut self)
        ensures
            final(self)@ == old(self)@.exited(),
    {
        self.active = false;
        self.yields_remaining = 0;
    }

    /// Forces the mode on for good, as is done when the hint ring is lost.
    pub fn force(&mut self)
        ensures
            final(self)@ == (DefensiveState { forced: true, ..old(self)@ }),
    {
        self.forced = true;
    }

    /// Forced yields that one entry grants.
    pub fn default_yields(&self) -> (count: u64)
        ensures
            count == self@.default_yields,
    {
        self.default_yields
    }

    /// Forced yields still to hand out.
    pub fn yields_remaining(&self) -> (count: u64)
        ensures
            count == self@.yields_remaining,
    {
        self.yields_remaining
    }
}

impl Default for DefensiveMode {
    /// A mode whose entries grant 100 yields.
    fn default() -> (mode: DefensiveMode)
        ensures
            mode@ == (DefensiveState {
                active: false,
                yields_remaining: 0,
                default_yields: crate::config::DEFAULT_DEFENSIVE_YIELDS,
                forced: false,
            }),
    {
        DefensiveMode::new(crate::config::DEFAULT_DEFENSIVE_YIELDS)
    }
}

/// An active mode with `n >= 1` yields left answers `true` to exactly the
/// next `n` calls of the decision predicate: before each of them it is still
/// active, after the last of them it is inactive and stays so.
pub proof fn lemma_yields_exactly_remaining(state: DefensiveState, calls: nat)
    requires
        state.active,
        !state.forced,
        state.yields_remaining >= 1,
    ensures
        calls < state.yields_remaining ==> state.after(calls).yields() && state.after(
            calls,
        ).yields_remaining == state.yields_remaining - calls,
        calls >= state.yields_remaining ==> !state.after(calls).yields(),
    decreases calls,
{
    if calls > 0 {
        let next = state.stepped();
        if next.active {
            lemma_yields_exactly_remaining(next, (calls - 1) as nat);
        } else {
            lemma_inactive_stays(next, (calls - 1) as nat);
        }
    }
}

proof fn lemma_inactive_stays(state: DefensiveState, calls: nat)
    requires
        !state.active,
        !state.forced,
    ensures
        state.after(calls) == state,
    decreases calls,
{
    if calls > 0 {
        lemma_inactive_stays(state, (calls - 1) as nat);
    }
}

/// Entering, leaving and entering again gives the state that one entry
/// gives: the full number of yields is back.
pub proof fn lemma_reentry_restores_yields(state: DefensiveState)
    ensures
        state.entered().exited().entered() == state.entered(),
        state.entered().exited().entered().yields_remaining == state.default_yields,
{
}

} // verus!
