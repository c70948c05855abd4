//! A histogram of latencies with buckets that double in width.

use vstd::prelude::*;
use crate::ringbuf::wrapping_sum;

verus! {

/// Number of buckets.
pub const BUCKETS: usize = 32;

/// Number of binary digits of `n`; 0 has none.
pub open spec fn bit_length(n: nat) -> nat
    decreases n,
{
    if n == 0 {
        0
    } else {
        1 + bit_length(n / 2)
    }
}

/// The bucket of a latency: the number of binary digits of the latency plus
/// one, but no more than the last bucket. Bucket `i` thus takes the
/// latencies from `2^(i-1) - 1` to `2^i - 2` microseconds.
pub open spec fn bucket_of(latency_us: u64) -> nat {
    let bits = bit_length((latency_us + 1) as nat);
    if bits > 31 {
        31
    } else {
        bits
    }
}

/// The sum of the first `upto` counts; it stops at `u64::MAX`.
pub open spec fn cumulative(counts: Seq<u64>, upto: int) -> u64
    decreases upto,
{
    if upto <= 0 {
        0
    } else {
        let sum = cumulative(counts, upto - 1) + counts[upto - 1];
        if sum > u64::MAX {
            u64::MAX
        } else {
            sum as u64
        }
    }
}

/// Index of the first bucket up to which at least `rank` samples lie, or
/// `BUCKETS` if there is none; the search starts at bucket `from`.
pub open spec fn rank_bucket(counts: Seq<u64>, rank: u64, from: int) -> int
    decreases BUCKETS - from,
{
    if from >= BUCKETS {
        BUCKETS as int
    } else if cumulative(counts, from + 1) >= rank {
        from
    } else {
        rank_bucket(counts, rank, from + 1)
    }
}

/// `2^exponent` for an exponent below 32.
pub open spec fn pow2(exponent: nat) -> nat
    decreases exponent,
{
    if exponent == 0 {
        1
    } else {
        2 * pow2((exponent - 1) as nat)
    }
}

/// A histogram of latencies in microseconds.
pub struct LatencyHistogram {
    buckets: [u64; 32],
}

impl View for LatencyHistogram {
    type V = Seq<u64>;

    /// The counts of the buckets; they wrap around at `u64::MAX`.
    closed spec fn view(&self) -> Seq<u64> {
        self.buckets@
    }
}

impl LatencyHistogram {
    /// Creates a histogram without samples.
    pub fn new() -> (histogram: LatencyHistogram)
        ensures
            histogram@ == Seq::new(BUCKETS as nat, |i: int| 0u64),
    {
        let buckets: [u64; 32] = [0; 32];
        assert(buckets@ =~= Seq::new(BUCKETS as nat, |i: int| 0u64));
        LatencyHistogram { buckets }
    }

    /// Adds one sample to its bucket.
    ///
    /// The latency must be below `u64::MAX`.
    pub fn record(&mut self, latency_us: u64)
        requires
            latency_us < u64::MAX,
        ensures
            final(self)@ == old(self)@.update(
                bucket_of(latency_us) as int,
                wrapping_sum(old(self)@[bucket_of(latency_us) as int], 1),
            ),
    {
        let mut rest = latency_us + 1;
        let mut bucket: usize = 0;
        while rest > 0 && bucket < 31
            invariant
                bucket <= 31,
                bucket + bit_length(rest as nat) == bit_length((latency_us + 1) as nat),
            decreases rest,
        {
            rest = rest / 2;
            bucket = bucket + 1;
        }
        assert(bucket == bucket_of(latency_us));
        let count = self.buckets[bucket].wrapping_add(1);
        self.buckets[bucket] = count;
    }

    /// Number of samples; the sum stops at `u64::MAX`.
    pub fn total(&self) -> (total: u64)
        ensures
            total == cumulative(self@, BUCKETS as int),
    {
        let mut total: u64 = 0;
        let mut i: usize = 0;
        while i < BUCKETS
            invariant
                i <= BUCKETS,
                self.buckets@.len() == BUCKETS,
                total == cumulative(self.buckets@, i as int),
            decreases BUCKETS - i,
        {
            total = total.saturating_add(self.buckets[i]);
            i = i + 1;
        }
        total
    }

    /// The upper end of the bucket in which the sample of rank `rank` lies:
    /// `2^i` for the first bucket `i` up to which at least `rank` samples lie,
    /// `2^31` if the histogram holds fewer than `rank`.
    pub fn value_at_rank(&self, rank: u64) -> (value: u64)
        ensures
            value == if rank_bucket(self@, rank, 0) < BUCKETS {
                pow2(rank_bucket(self@, rank, 0) as nat)
            } else {
                pow2(31)
            },
    {
        let mut count: u64 = 0;
        let mut value: u64 = 1;
        let mut i: usize = 0;
        while i < BUCKETS
            invariant
                i <= BUCKETS,
                self.buckets@.len() == BUCKETS,
                count == cumulative(self.buckets@, i as int),
                rank_bucket(self.buckets@, rank, 0) == rank_bucket(self.buckets@, rank, i as int),
                value == pow2(i as nat),
                i < BUCKETS ==> value <= 0x8000_0000,
                i == BUCKETS ==> value == 0x1_0000_0000,
            decreases BUCKETS - i,
        {
            count = count.saturating_add(self.buckets[i]);
            if count >= rank {
                return value;
            }
            proof {
                assert(pow2((i + 1) as nat) == 2 * pow2(i as nat));
                lemma_pow2_31();
                if i < 31 {
                    lemma_pow2_monotonic(i as nat + 1, 31);
                }
            }
            value = value * 2;
            i = i + 1;
        }
        proof {
            lemma_pow2_31();
        }
        0x8000_0000
    }
}

proof fn lemma_pow2_31()
    ensures
        pow2(31) == 0x8000_0000,
        pow2(32) == 0x1_0000_0000,
{
    reveal_with_fuel(pow2, 33);
}

proof fn lemma_pow2_monotonic(a: nat, b: nat)
    requires
        a <= b,
    ensures
        pow2(a) <= pow2(b),
    decreases b,
{
    if a < b {
        lemma_pow2_monotonic(a, (b - 1) as nat);
    }
}

} // verus!
