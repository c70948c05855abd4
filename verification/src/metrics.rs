//! Counters and latency samples for observers, and their export as text.
//!
//! Every table keeps its entries in the order in which their keys were first
//! seen, so the export is the same for the same history.

use vstd::prelude::*;
use vstd::string::StringExecFns;
use crate::ringbuf::wrapping_sum;
use crate::text::{decimal, push_decimal, push_seconds, seconds};

verus! {

/// Latency samples kept per worker; older ones make room for newer ones.
pub const MAX_LATENCY_SAMPLES: usize = 1000;

/// A counter under a key. A table uses the parts of the key it needs: hint
/// counters the worker and the reason, escalation counters the policy,
/// defensive-mode counters the worker.
pub struct Counter {
    /// The worker the counter belongs to, 0 where the table has none.
    pub worker_id: u32,
    /// The label of the counter, empty where the table has none.
    pub label: String,
    /// How often the event was recorded; wraps around at `u64::MAX`.
    pub count: u64,
}

/// A counter as contracts see it.
pub struct CounterEntry {
    /// The worker the counter belongs to.
    pub worker_id: u32,
    /// The label of the counter.
    pub label: Seq<char>,
    /// How often the event was recorded.
    pub count: u64,
}

impl View for Counter {
    type V = CounterEntry;

    open spec fn view(&self) -> CounterEntry {
        CounterEntry { worker_id: self.worker_id, label: self.label@, count: self.count }
    }
}

/// The latest acknowledgement latencies of one worker, oldest first.
pub struct LatencyWindow {
    /// The worker.
    pub worker_id: u32,
    /// The samples in nanoseconds, at most `MAX_LATENCY_SAMPLES`.
    pub samples: Vec<u64>,
}

/// A latency window as contracts see it.
pub struct WindowEntry {
    /// The worker.
    pub worker_id: u32,
    /// The samples in nanoseconds, oldest first.
    pub samples: Seq<u64>,
}

impl View for LatencyWindow {
    type V = WindowEntry;

    open spec fn view(&self) -> WindowEntry {
        WindowEntry { worker_id: self.worker_id, samples: self.samples@ }
    }
}

/// The entries of a counter table.
pub open spec fn counters(table: Seq<Counter>) -> Seq<CounterEntry> {
    table.map_values(|counter: Counter| counter@)
}

/// The entries of the latency table.
pub open spec fn windows(table: Seq<LatencyWindow>) -> Seq<WindowEntry> {
    table.map_values(|window: LatencyWindow| window@)
}

/// Index of the first entry with the key, or the length of the table if there
/// is none.
pub open spec fn counter_index(entries: Seq<CounterEntry>, worker_id: u32, label: Seq<char>) -> int
    decreases entries.len(),
{
    if entries.len() == 0 {
        0
    } else if entries[0].worker_id == worker_id && entries[0].label == label {
        0
    } else {
        1 + counter_index(entries.drop_first(), worker_id, label)
    }
}

/// The count recorded under the key; 0 if there is no entry.
pub open spec fn count_of(entries: Seq<CounterEntry>, worker_id: u32, label: Seq<char>) -> u64 {
    let at = counter_index(entries, worker_id, label);
    if at < entries.len() {
        entries[at].count
    } else {
        0
    }
}

/// The table after one more event under the key: the entry's count goes up by
/// one; a key seen for the first time gets an entry with count 1 at the end.
pub open spec fn bumped(entries: Seq<CounterEntry>, worker_id: u32, label: Seq<char>) -> Seq<
    CounterEntry,
> {
    let at = counter_index(entries, worker_id, label);
    if at < entries.len() {
        entries.update(
            at,
            CounterEntry { worker_id, label, count: wrapping_sum(entries[at].count, 1) },
        )
    } else {
        entries.push(CounterEntry { worker_id, label, count: 1 })
    }
}

/// Index of the first window of the worker, or the length of the table if
/// there is none.
pub open spec fn window_index(entries: Seq<WindowEntry>, worker_id: u32) -> int
    decreases entries.len(),
{
    if entries.len() == 0 {
        0
    } else if entries[0].worker_id == worker_id {
        0
    } else {
        1 + window_index(entries.drop_first(), worker_id)
    }
}

/// A window after one more sample: a full window loses its oldest sample
/// first.
pub open spec fn slid(samples: Seq<u64>, latency_ns: u64) -> Seq<u64> {
    if samples.len() >= MAX_LATENCY_SAMPLES {
        samples.drop_first().push(latency_ns)
    } else {
        samples.push(latency_ns)
    }
}

/// The latency table after one more sample of the worker; a worker seen for
/// the first time gets a window at the end.
pub open spec fn sampled(entries: Seq<WindowEntry>, worker_id: u32, latency_ns: u64) -> Seq<
    WindowEntry,
> {
    let at = window_index(entries, worker_id);
    if at < entries.len() {
        entries.update(
            at,
            WindowEntry { worker_id, samples: slid(entries[at].samples, latency_ns) },
        )
    } else {
        entries.push(WindowEntry { worker_id, samples: seq![latency_ns] })
    }
}

/// No key occurs twice.
pub open spec fn distinct_keys(entries: Seq<CounterEntry>) -> bool {
    forall|i: int, j: int|
        0 <= i < j < entries.len() ==> !(entries[i].worker_id == entries[j].worker_id
            && entries[i].label == entries[j].label)
}

/// No worker has two windows, and no window holds more than
/// `MAX_LATENCY_SAMPLES` samples.
pub open spec fn bounded_windows(entries: Seq<WindowEntry>) -> bool {
    &&& forall|i: int, j: int|
        0 <= i < j < entries.len() ==> entries[i].worker_id != entries[j].worker_id
    &&& forall|i: int| 0 <= i < entries.len() ==> entries[i].samples.len() <= MAX_LATENCY_SAMPLES
}

proof fn lemma_counter_index(entries: Seq<CounterEntry>, worker_id: u32, label: Seq<char>, at: int)
    requires
        0 <= at <= entries.len(),
        forall|j: int|
            0 <= j < at ==> !(entries[j].worker_id == worker_id && entries[j].label == label),
        at < entries.len() ==> entries[at].worker_id == worker_id && entries[at].label == label,
    ensures
        counter_index(entries, worker_id, label) == at,
    decreases entries.len(),
{
    if entries.len() > 0 && at > 0 {
        let rest = entries.drop_first();
        assert forall|j: int| 0 <= j < at - 1 implies !(rest[j].worker_id == worker_id
            && rest[j].label == label) by {
            assert(rest[j] == entries[j + 1]);
        }
        lemma_counter_index(rest, worker_id, label, at - 1);
    }
}

proof fn lemma_window_index(entries: Seq<WindowEntry>, worker_id: u32, at: int)
    requires
        0 <= at <= entries.len(),
        forall|j: int| 0 <= j < at ==> entries[j].worker_id != worker_id,
        at < entries.len() ==> entries[at].worker_id == worker_id,
    ensures
        window_index(entries, worker_id) == at,
    decreases entries.len(),
{
    if entries.len() > 0 && at > 0 {
        let rest = entries.drop_first();
        assert forall|j: int| 0 <= j < at - 1 implies rest[j].worker_id != worker_id by {
            assert(rest[j] == entries[j + 1]);
        }
        lemma_window_index(rest, worker_id, at - 1);
    }
}

/// Counts one more event under the key in a counter table.
fn bump(table: &mut Vec<Counter>, worker_id: u32, label: &str)
    ensures
        counters(final(table)@) == bumped(counters(old(table)@), worker_id, label@),
        distinct_keys(counters(old(table)@)) ==> distinct_keys(counters(final(table)@)),
{
    let wanted = String::from_str(label);
    let ghost before = counters(table@);
    let mut at: usize = 0;
    while at < table.len()
        invariant
            at <= table.len(),
            wanted@ == label@,
            counters(table@) == before,
            *table == *old(table),
            forall|j: int|
                0 <= j < at ==> !(before[j].worker_id == worker_id && before[j].label == label@),
        ensures
            at <= table.len(),
            at < table.len() ==> before[at as int].worker_id == worker_id && before[at as int].label
                == label@,
            forall|j: int|
                0 <= j < at ==> !(before[j].worker_id == worker_id && before[j].label == label@),
            counters(table@) == before,
        decreases table.len() - at,
    {
        if table[at].worker_id == worker_id && table[at].label == wanted {
            break ;
        }
        at = at + 1;
    }
    proof {
        lemma_counter_index(before, worker_id, label@, at as int);
    }
    if at < table.len() {
        let found = table.remove(at);
        let count = found.count.wrapping_add(1);
        table.insert(at, Counter { worker_id, label: wanted, count });
        assert(counters(table@) =~= bumped(before, worker_id, label@));
    } else {
        table.push(Counter { worker_id, label: wanted, count: 1 });
        assert(counters(table@) =~= bumped(before, worker_id, label@));
    }
}

/// Adds one sample of the worker to the latency table.
fn sample(table: &mut Vec<LatencyWindow>, worker_id: u32, latency_ns: u64)
    ensures
        windows(final(table)@) == sampled(windows(old(table)@), worker_id, latency_ns),
        bounded_windows(windows(old(table)@)) ==> bounded_windows(windows(final(table)@)),
{
    let ghost before = windows(table@);
    let mut at: usize = 0;
    while at < table.len()
        invariant
            at <= table.len(),
            windows(table@) == before,
            *table == *old(table),
            forall|j: int| 0 <= j < at ==> before[j].worker_id != worker_id,
        ensures
            at <= table.len(),
            at < table.len() ==> before[at as int].worker_id == worker_id,
            forall|j: int| 0 <= j < at ==> before[j].worker_id != worker_id,
            windows(table@) == before,
        decreases table.len() - at,
    {
        if table[at].worker_id == worker_id {
            break ;
        }
        at = at + 1;
    }
    proof {
        lemma_window_index(before, worker_id, at as int);
    }
    if at < table.len() {
        let found = table.remove(at);
        let mut samples = found.samples;
        if samples.len() >= MAX_LATENCY_SAMPLES {
            samples.remove(0);
        }
        samples.push(latency_ns);
        assert(samples@ =~= slid(before[at as int].samples, latency_ns));
        table.insert(at, LatencyWindow { worker_id, samples });
        assert(windows(table@) =~= sampled(before, worker_id, latency_ns));
    } else {
        let mut samples: Vec<u64> = Vec::new();
        samples.push(latency_ns);
        table.push(LatencyWindow { worker_id, samples });
        assert(windows(table@) =~= sampled(before, worker_id, latency_ns));
    }
}

/// How many of the samples are at most `bound`.
pub open spec fn at_most(samples: Seq<u64>, bound: u64) -> nat
    decreases samples.len(),
{
    if samples.len() == 0 {
        0
    } else {
        let here: nat = if samples.last() <= bound { 1 } else { 0 };
        at_most(samples.drop_last(), bound) + here
    }
}

/// The sum of the samples.
pub open spec fn total(samples: Seq<u64>) -> nat
    decreases samples.len(),
{
    if samples.len() == 0 {
        0
    } else {
        total(samples.drop_last()) + samples.last() as nat
    }
}

/// `n` as a 64-bit counter that stops at its largest value holds it.
pub open spec fn saturated(n: nat) -> u64 {
    if n > u64::MAX {
        u64::MAX
    } else {
        n as u64
    }
}

/// Counts the samples that are at most `bound`.
pub fn count_at_most(samples: &Vec<u64>, bound: u64) -> (count: usize)
    ensures
        count == at_most(samples@, bound),
        count <= samples.len(),
{
    let mut count: usize = 0;
    let mut i: usize = 0;
    while i < samples.len()
        invariant
            i <= samples.len(),
            count <= i,
            count == at_most(samples@.take(i as int), bound),
        decreases samples.len() - i,
    {
        proof {
            assert(samples@.take(i + 1).drop_last() =~= samples@.take(i as int));
        }
        if samples[i] <= bound {
            count = count + 1;
        }
        i = i + 1;
    }
    proof {
        assert(samples@.take(samples.len() as int) =~= samples@);
    }
    count
}

/// Adds the samples up; the sum stops at `u64::MAX`.
pub fn saturating_total(samples: &Vec<u64>) -> (sum: u64)
    ensures
        sum == saturated(total(samples@)),
{
    let mut sum: u64 = 0;
    let mut i: usize = 0;
    while i < samples.len()
        invariant
            i <= samples.len(),
            sum == saturated(total(samples@.take(i as int))),
        decreases samples.len() - i,
    {
        proof {
            assert(samples@.take(i + 1).drop_last() =~= samples@.take(i as int));
        }
        sum = sum.saturating_add(samples[i]);
        i = i + 1;
    }
    proof {
        assert(samples@.take(samples.len() as int) =~= samples@);
    }
    sum
}

/// The families of counters that are exported line by line.
#[derive(Clone, Copy, Debug, PartialEq, Eq, Structural)]
pub enum CounterFamily {
    /// Hints received, by worker and reason.
    Hints,
    /// Escalations, by policy.
    Escalations,
    /// Entries into defensive mode, by worker.
    DefensiveModes,
}

impl CounterFamily {
    /// The line that exports one counter of this family.
    pub open spec fn line(self, entry: CounterEntry) -> Seq<char> {
        match self {
            CounterFamily::Hints => "morpheus_hint_count_total{worker_id=\""@ + decimal(
                entry.worker_id as nat,
            ) + "\",reason=\""@ + entry.label + "\"} "@ + decimal(entry.count as nat) + "\n"@,
            CounterFamily::Escalations => "morpheus_escalation_count_total{policy=\""@
                + entry.label + "\"} "@ + decimal(entry.count as nat) + "\n"@,
            CounterFamily::DefensiveModes => "morpheus_defensive_mode_total{worker_id=\""@
                + decimal(entry.worker_id as nat) + "\"} "@ + decimal(entry.count as nat) + "\n"@,
        }
    }

    /// The lines that export a table of this family, in the table's order.
    pub open spec fn lines(self, entries: Seq<CounterEntry>) -> Seq<char>
        decreases entries.len(),
    {
        if entries.len() == 0 {
            Seq::<char>::empty()
        } else {
            self.lines(entries.drop_last()) + self.line(entries.last())
        }
    }
}

/// The line that exports one bucket of a worker's latency histogram.
pub open spec fn bucket_line(worker_id: u32, bound: Seq<char>, count: nat) -> Seq<char> {
    "morpheus_last_ack_latency_seconds_bucket{worker_id=\""@ + decimal(worker_id as nat)
        + "\",le=\""@ + bound + "\"} "@ + decimal(count) + "\n"@
}

/// The histogram of one worker: a bucket for each bound from 10 µs to 10 ms,
/// the bucket of all samples, their sum in seconds and their number. A
/// worker without samples is not exported.
pub open spec fn histogram(window: WindowEntry) -> Seq<char> {
    if window.samples.len() == 0 {
        Seq::<char>::empty()
    } else {
        bucket_line(window.worker_id, "0.00001"@, at_most(window.samples, 10_000)) + bucket_line(
            window.worker_id,
            "0.00005"@,
            at_most(window.samples, 50_000),
        ) + bucket_line(window.worker_id, "0.0001"@, at_most(window.samples, 100_000))
            + bucket_line(window.worker_id, "0.0005"@, at_most(window.samples, 500_000))
            + bucket_line(window.worker_id, "0.001"@, at_most(window.samples, 1_000_000))
            + bucket_line(window.worker_id, "0.005"@, at_most(window.samples, 5_000_000))
            + bucket_line(window.worker_id, "0.01"@, at_most(window.samples, 10_000_000))
            + bucket_line(window.worker_id, "+Inf"@, window.samples.len())
            + "morpheus_last_ack_latency_seconds_sum{worker_id=\""@ + decimal(
            window.worker_id as nat,
        ) + "\"} "@ + seconds(saturated(total(window.samples)) as nat) + "\n"@
            + "morpheus_last_ack_latency_seconds_count{worker_id=\""@ + decimal(
            window.worker_id as nat,
        ) + "\"} "@ + decimal(window.samples.len()) + "\n"@
    }
}

/// The histograms of all workers, in the table's order.
pub open spec fn histograms(entries: Seq<WindowEntry>) -> Seq<char>
    decreases entries.len(),
{
    if entries.len() == 0 {
        Seq::<char>::empty()
    } else {
        histograms(entries.drop_last()) + histogram(entries.last())
    }
}

/// What a metrics collector holds.
pub struct MetricsView {
    /// Hints received, by worker and reason.
    pub hint_counts: Seq<CounterEntry>,
    /// Hints dropped because the ring was full.
    pub hint_drops: u64,
    /// Escalations, by policy.
    pub escalation_counts: Seq<CounterEntry>,
    /// Entries into defensive mode, by worker.
    pub defensive_mode_counts: Seq<CounterEntry>,
    /// Acknowledgement latencies, by worker.
    pub ack_latency_samples: Seq<WindowEntry>,
}

impl MetricsView {
    /// The export in the Prometheus text format.
    pub open spec fn rendered(self) -> Seq<char> {
        "# HELP morpheus_hint_count_total Total hints received by worker and reason\n"@
            + "# TYPE morpheus_hint_count_total counter\n"@ + CounterFamily::Hints.lines(
            self.hint_counts,
        )
            + "# HELP morpheus_hint_drops_total Total hints dropped due to ring buffer overflow\n"@
            + "# TYPE morpheus_hint_drops_total counter\n"@ + "morpheus_hint_drops_total "@
            + decimal(self.hint_drops as nat) + "\n"@
            + "# HELP morpheus_escalation_count_total Total escalations by policy\n"@
            + "# TYPE morpheus_escalation_count_total counter\n"@
            + CounterFamily::Escalations.lines(self.escalation_counts)
            + "# HELP morpheus_defensive_mode_total Defensive mode activations by worker\n"@
            + "# TYPE morpheus_defensive_mode_total counter\n"@
            + CounterFamily::DefensiveModes.lines(self.defensive_mode_counts)
            + "# HELP morpheus_last_ack_latency_seconds Hint acknowledgment latency in seconds\n"@
            + "# TYPE morpheus_last_ack_latency_seconds histogram\n"@ + histograms(
            self.ack_latency_samples,
        )
    }
}

/// Appends the line of one counter.
fn push_counter_line(out: &mut String, family: CounterFamily, counter: &Counter)
    ensures
        final(out)@ == old(out)@ + family.line(counter@),
{
    match family {
        CounterFamily::Hints => {
            out.append("morpheus_hint_count_total{worker_id=\"");
            push_decimal(out, counter.worker_id as u64);
            out.append("\",reason=\"");
            out.append(counter.label.as_str());
            out.append("\"} ");
        },
        CounterFamily::Escalations => {
            out.append("morpheus_escalation_count_total{policy=\"");
            out.append(counter.label.as_str());
            out.append("\"} ");
        },
        CounterFamily::DefensiveModes => {
            out.append("morpheus_defensive_mode_total{worker_id=\"");
            push_decimal(out, counter.worker_id as u64);
            out.append("\"} ");
        },
    }
    push_decimal(out, counter.count);
    out.append("\n");
    assert(out@ =~= old(out)@ + family.line(counter@));
}

/// Appends the lines of a counter table.
fn push_counter_lines(out: &mut String, family: CounterFamily, table: &Vec<Counter>)
    ensures
        final(out)@ == old(out)@ + family.lines(counters(table@)),
{
    let ghost entries = counters(table@);
    let mut i: usize = 0;
    assert(old(out)@ + family.lines(entries.take(0)) =~= old(out)@);
    while i < table.len()
        invariant
            i <= table.len(),
            entries == counters(table@),
            out@ == old(out)@ + family.lines(entries.take(i as int)),
        decreases table.len() - i,
    {
        proof {
            assert(entries.take(i + 1).drop_last() =~= entries.take(i as int));
            assert(entries.take(i + 1).last() == table@[i as int]@);
        }
        push_counter_line(out, family, &table[i]);
        assert(out@ =~= old(out)@ + family.lines(entries.take(i + 1)));
        i = i + 1;
    }
    proof {
        assert(entries.take(table.len() as int) =~= entries);
    }
}

/// Appends the line of one histogram bucket.
fn push_bucket_line(out: &mut String, worker_id: u32, bound: &str, count: usize)
    ensures
        final(out)@ == old(out)@ + bucket_line(worker_id, bound@, count as nat),
{
    out.append("morpheus_last_ack_latency_seconds_bucket{worker_id=\"");
    push_decimal(out, worker_id as u64);
    out.append("\",le=\"");
    out.append(bound);
    out.append("\"} ");
    push_decimal(out, count as u64);
    out.append("\n");
    assert(out@ =~= old(out)@ + bucket_line(worker_id, bound@, count as nat));
}

/// Appends the histogram of one worker.
fn push_histogram(out: &mut String, window: &LatencyWindow)
    ensures
        final(out)@ == old(out)@ + histogram(window@),
{
    let samples = &window.samples;
    let worker_id = window.worker_id;
    if samples.len() == 0 {
        assert(out@ =~= old(out)@ + histogram(window@));
        return ;
    }
    push_bucket_line(out, worker_id, "0.00001", count_at_most(samples, 10_000));
    push_bucket_line(out, worker_id, "0.00005", count_at_most(samples, 50_000));
    push_bucket_line(out, worker_id, "0.0001", count_at_most(samples, 100_000));
    push_bucket_line(out, worker_id, "0.0005", count_at_most(samples, 500_000));
    push_bucket_line(out, worker_id, "0.001", count_at_most(samples, 1_000_000));
    push_bucket_line(out, worker_id, "0.005", count_at_most(samples, 5_000_000));
    push_bucket_line(out, worker_id, "0.01", count_at_most(samples, 10_000_000));
    push_bucket_line(out, worker_id, "+Inf", samples.len());
    out.append("morpheus_last_ack_latency_seconds_sum{worker_id=\"");
    push_decimal(out, worker_id as u64);
    out.append("\"} ");
    push_seconds(out, saturating_total(samples));
    out.append("\n");
    out.append("morpheus_last_ack_latency_seconds_count{worker_id=\"");
    push_decimal(out, worker_id as u64);
    out.append("\"} ");
    push_decimal(out, samples.len() as u64);
    out.append("\n");
    assert(out@ =~= old(out)@ + histogram(window@));
}

/// Appends the histograms of all workers.
fn push_histograms(out: &mut String, table: &Vec<LatencyWindow>)
    ensures
        final(out)@ == old(out)@ + histograms(windows(table@)),
{
    let ghost entries = windows(table@);
    let mut i: usize = 0;
    assert(old(out)@ + histograms(entries.take(0)) =~= old(out)@);
    while i < table.len()
        invariant
            i <= table.len(),
            entries == windows(table@),
            out@ == old(out)@ + histograms(entries.take(i as int)),
        decreases table.len() - i,
    {
        proof {
            assert(entries.take(i + 1).drop_last() =~= entries.take(i as int));
            assert(entries.take(i + 1).last() == table@[i as int]@);
        }
        push_histogram(out, &table[i]);
        assert(out@ =~= old(out)@ + histograms(entries.take(i + 1)));
        i = i + 1;
    }
    proof {
        assert(entries.take(table.len() as int) =~= entries);
    }
}

/// Collects what observers want to know about a runtime.
pub struct MorpheusMetrics {
    hint_counts: Vec<Counter>,
    hint_drops: u64,
    escalation_counts: Vec<Counter>,
    defensive_mode_counts: Vec<Counter>,
    ack_latency_samples: Vec<LatencyWindow>,
}

impl View for MorpheusMetrics {
    type V = MetricsView;

    closed spec fn view(&self) -> MetricsView {
        MetricsView {
            hint_counts: counters(self.hint_counts@),
            hint_drops: self.hint_drops,
            escalation_counts: counters(self.escalation_counts@),
            defensive_mode_counts: counters(self.defensive_mode_counts@),
            ack_latency_samples: windows(self.ack_latency_samples@),
        }
    }
}

impl MorpheusMetrics {
    /// The invariant of every collector: no table holds a key twice, and no
    /// worker has more than `MAX_LATENCY_SAMPLES` latency samples.
    #[verifier::type_invariant]
    pub open spec fn wf(&self) -> bool {
        &&& distinct_keys(self@.hint_counts)
        &&& distinct_keys(self@.escalation_counts)
        &&& distinct_keys(self@.defensive_mode_counts)
        &&& bounded_windows(self@.ack_latency_samples)
    }

    /// Creates a collector that has recorded nothing.
    pub fn new() -> (metrics: MorpheusMetrics)
        ensures
            metrics.wf(),
            metrics@ == (MetricsView {
                hint_counts: Seq::empty(),
                hint_drops: 0,
                escalation_counts: Seq::empty(),
                defensive_mode_counts: Seq::empty(),
                ack_latency_samples: Seq::empty(),
            }),
    {
        let hint_counts: Vec<Counter> = Vec::new();
        let escalation_counts: Vec<Counter> = Vec::new();
        let defensive_mode_counts: Vec<Counter> = Vec::new();
        let ack_latency_samples: Vec<LatencyWindow> = Vec::new();
        assert(counters(hint_counts@) =~= Seq::empty());
        assert(counters(escalation_counts@) =~= Seq::empty());
        assert(counters(defensive_mode_counts@) =~= Seq::empty());
        assert(windows(ack_latency_samples@) =~= Seq::empty());
        let metrics = MorpheusMetrics {
            hint_counts,
            hint_drops: 0,
            escalation_counts,
            defensive_mode_counts,
            ack_latency_samples,
        };
        assert(metrics@.hint_counts =~= Seq::empty());
        assert(metrics@.escalation_counts =~= Seq::empty());
        assert(metrics@.defensive_mode_counts =~= Seq::empty());
        assert(metrics@.ack_latency_samples =~= Seq::empty());
        metrics
    }

    /// Records a hint that `worker_id` received for `reason`.
    pub fn record_hint(&mut self, worker_id: u32, reason: &str)
        ensures
            final(self)@ == (MetricsView {
                hint_counts: bumped(old(self)@.hint_counts, worker_id, reason@),
                ..old(self)@
            }),
            final(self).wf(),
    {
        proof {
            use_type_invariant(&*self);
        }
        let mut table: Vec<Counter> = Vec::new();
        assert(counters(table@) =~= Seq::empty());
        std::mem::swap(&mut self.hint_counts, &mut table);
        bump(&mut table, worker_id, reason);
        self.hint_counts = table;
    }

    /// Records a hint that was dropped because the ring was full.
    pub fn record_hint_drop(&mut self)
        ensures
            final(self)@ == (MetricsView {
                hint_drops: wrapping_sum(old(self)@.hint_drops, 1),
                ..old(self)@
            }),
            final(self).wf(),
    {
        proof {
            use_type_invariant(&*self);
        }
        self.hint_drops = self.hint_drops.wrapping_add(1);
    }

    /// Records an escalation under `policy`.
    pub fn record_escalation(&mut self, policy: &str)
        ensures
            final(self)@ == (MetricsView {
                escalation_counts: bumped(old(self)@.escalation_counts, 0, policy@),
                ..old(self)@
            }),
            final(self).wf(),
    {
        proof {
            use_type_invariant(&*self);
        }
        let mut table: Vec<Counter> = Vec::new();
        assert(counters(table@) =~= Seq::empty());
        std::mem::swap(&mut self.escalation_counts, &mut table);
        bump(&mut table, 0, policy);
        self.escalation_counts = table;
    }

    /// Records that `worker_id` went into defensive mode.
    pub fn record_defensive_mode(&mut self, worker_id: u32)
        ensures
            final(self)@ == (MetricsView {
                defensive_mode_counts: bumped(
                    old(self)@.defensive_mode_counts,
                    worker_id,
                    Seq::empty(),
                ),
                ..old(self)@
            }),
            final(self).wf(),
    {
        proof {
            use_type_invariant(&*self);
            reveal_strlit("");
            assert(""@ =~= Seq::<char>::empty());
        }
        let mut table: Vec<Counter> = Vec::new();
        assert(counters(table@) =~= Seq::empty());
        std::mem::swap(&mut self.defensive_mode_counts, &mut table);
        bump(&mut table, worker_id, "");
        self.defensive_mode_counts = table;
    }

    /// Records how long `worker_id` took to acknowledge a hint. Of each worker
    /// the latest 1000 samples are kept.
    pub fn record_ack_latency(&mut self, worker_id: u32, latency_ns: u64)
        ensures
            final(self)@ == (MetricsView {
                ack_latency_samples: sampled(old(self)@.ack_latency_samples, worker_id, latency_ns),
                ..old(self)@
            }),
            final(self).wf(),
    {
        proof {
            use_type_invariant(&*self);
        }
        let mut table: Vec<LatencyWindow> = Vec::new();
        assert(windows(table@) =~= Seq::empty());
        std::mem::swap(&mut self.ack_latency_samples, &mut table);
        sample(&mut table, worker_id, latency_ns);
        self.ack_latency_samples = table;
    }

    /// Hints recorded for `worker_id` and `reason`.
    pub fn hint_count(&self, worker_id: u32, reason: &str) -> (count: u64)
        ensures
            count == count_of(self@.hint_counts, worker_id, reason@),
    {
        lookup(&self.hint_counts, worker_id, reason)
    }

    /// Hints recorded as dropped.
    pub fn hint_drops(&self) -> (count: u64)
        ensures
            count == self@.hint_drops,
    {
        self.hint_drops
    }

    /// Escalations recorded under `policy`.
    pub fn escalation_count(&self, policy: &str) -> (count: u64)
        ensures
            count == count_of(self@.escalation_counts, 0, policy@),
    {
        lookup(&self.escalation_counts, 0, policy)
    }

    /// Entries into defensive mode recorded for `worker_id`.
    pub fn defensive_mode_count(&self, worker_id: u32) -> (count: u64)
        ensures
            count == count_of(self@.defensive_mode_counts, worker_id, Seq::empty()),
    {
        proof {
            reveal_strlit("");
            assert(""@ =~= Seq::<char>::empty());
        }
        lookup(&self.defensive_mode_counts, worker_id, "")
    }

    /// Exports everything in the Prometheus text format.
    pub fn render(&self) -> (output: String)
        ensures
            output@ == self@.rendered(),
    {
        let mut output = String::new();
        output.append("# HELP morpheus_hint_count_total Total hints received by worker and reason\n");
        output.append("# TYPE morpheus_hint_count_total counter\n");
        push_counter_lines(&mut output, CounterFamily::Hints, &self.hint_counts);
        output.append(
            "# HELP morpheus_hint_drops_total Total hints dropped due to ring buffer overflow\n",
        );
        output.append("# TYPE morpheus_hint_drops_total counter\n");
        output.append("morpheus_hint_drops_total ");
        push_decimal(&mut output, self.hint_drops);
        output.append("\n");
        output.append("# HELP morpheus_escalation_count_total Total escalations by policy\n");
        output.append("# TYPE morpheus_escalation_count_total counter\n");
        push_counter_lines(&mut output, CounterFamily::Escalations, &self.escalation_counts);
        output.append("# HELP morpheus_defensive_mode_total Defensive mode activations by worker\n");
        output.append("# TYPE morpheus_defensive_mode_total counter\n");
        push_counter_lines(&mut output, CounterFamily::DefensiveModes, &self.defensive_mode_counts);
        output.append(
            "# HELP morpheus_last_ack_latency_seconds Hint acknowledgment latency in seconds\n",
        );
        output.append("# TYPE morpheus_last_ack_latency_seconds histogram\n");
        push_histograms(&mut output, &self.ack_latency_samples);
        assert(output@ =~= self@.rendered());
        output
    }
}

impl Default for MorpheusMetrics {
    fn default() -> (metrics: MorpheusMetrics)
        ensures
            metrics.wf(),
            metrics@ == (MetricsView {
                hint_counts: Seq::empty(),
                hint_drops: 0,
                escalation_counts: Seq::empty(),
                defensive_mode_counts: Seq::empty(),
                ack_latency_samples: Seq::empty(),
            }),
    {
        MorpheusMetrics::new()
    }
}

/// Looks the count under a key up in a counter table.
fn lookup(table: &Vec<Counter>, worker_id: u32, label: &str) -> (count: u64)
    ensures
        count == count_of(counters(table@), worker_id, label@),
{
    let wanted = String::from_str(label);
    let ghost entries = counters(table@);
    let mut at: usize = 0;
    while at < table.len()
        invariant
            at <= table.len(),
            wanted@ == label@,
            entries == counters(table@),
            forall|j: int|
                0 <= j < at ==> !(entries[j].worker_id == worker_id && entries[j].label == label@),
        ensures
            at <= table.len(),
            at < table.len() ==> entries[at as int].worker_id == worker_id
                && entries[at as int].label == label@,
        decreases table.len() - at,
    {
        if table[at].worker_id == worker_id && table[at].label == wanted {
            break ;
        }
        at = at + 1;
    }
    proof {
        lemma_counter_index(entries, worker_id, label@, at as int);
    }
    if at < table.len() {
        table[at].count
    } else {
        0
    }
}

} // verus!
