//! The metrics collector, its export and the latency histogram.

use morpheus::histogram::LatencyHistogram;
use morpheus::metrics::{count_at_most, saturating_total, MorpheusMetrics};

#[test]
fn test_metrics_recording() {
    let mut m = MorpheusMetrics::new();

    m.record_hint(0, "budget");
    m.record_hint(0, "budget");
    m.record_hint(1, "pressure");
    m.record_hint_drop();
    m.record_escalation("thread_kick");
    m.record_defensive_mode(0);
    m.record_ack_latency(0, 50_000);

    let output = m.render();
    assert!(output.contains("morpheus_hint_count_total"));
    assert!(output.contains("morpheus_hint_drops_total"));
    assert!(output.contains("morpheus_escalation_count_total"));
    assert!(output.contains("morpheus_defensive_mode_total"));
    assert!(output.contains("morpheus_last_ack_latency_seconds"));
}

#[test]
fn empty_export() {
    let expected = "\
# HELP morpheus_hint_count_total Total hints received by worker and reason
# TYPE morpheus_hint_count_total counter
# HELP morpheus_hint_drops_total Total hints dropped due to ring buffer overflow
# TYPE morpheus_hint_drops_total counter
morpheus_hint_drops_total 0
# HELP morpheus_escalation_count_total Total escalations by policy
# TYPE morpheus_escalation_count_total counter
# HELP morpheus_defensive_mode_total Defensive mode activations by worker
# TYPE morpheus_defensive_mode_total counter
# HELP morpheus_last_ack_latency_seconds Hint acknowledgment latency in seconds
# TYPE morpheus_last_ack_latency_seconds histogram
";
    assert_eq!(MorpheusMetrics::new().render(), expected);
    assert_eq!(MorpheusMetrics::default().render(), expected);
}

#[test]
fn full_export() {
    let mut m = MorpheusMetrics::new();
    m.record_hint(0, "budget");
    m.record_hint(0, "budget");
    m.record_hint(1, "pressure");
    m.record_hint(0, "pressure");
    m.record_hint_drop();
    m.record_hint_drop();
    m.record_hint_drop();
    m.record_escalation("thread_kick");
    m.record_escalation("hybrid");
    m.record_escalation("thread_kick");
    m.record_defensive_mode(12);
    m.record_defensive_mode(0);
    m.record_defensive_mode(12);
    m.record_ack_latency(7, 50_000);
    m.record_ack_latency(7, 10_000);
    m.record_ack_latency(7, 10_001);
    m.record_ack_latency(7, 2_000_000_000);
    m.record_ack_latency(3, 1_000_000);

    let expected = "\
# HELP morpheus_hint_count_total Total hints received by worker and reason
# TYPE morpheus_hint_count_total counter
morpheus_hint_count_total{worker_id=\"0\",reason=\"budget\"} 2
morpheus_hint_count_total{worker_id=\"1\",reason=\"pressure\"} 1
morpheus_hint_count_total{worker_id=\"0\",reason=\"pressure\"} 1
# HELP morpheus_hint_drops_total Total hints dropped due to ring buffer overflow
# TYPE morpheus_hint_drops_total counter
morpheus_hint_drops_total 3
# HELP morpheus_escalation_count_total Total escalations by policy
# TYPE morpheus_escalation_count_total counter
morpheus_escalation_count_total{policy=\"thread_kick\"} 2
morpheus_escalation_count_total{policy=\"hybrid\"} 1
# HELP morpheus_defensive_mode_total Defensive mode activations by worker
# TYPE morpheus_defensive_mode_total counter
morpheus_defensive_mode_total{worker_id=\"12\"} 2
morpheus_defensive_mode_total{worker_id=\"0\"} 1
# HELP morpheus_last_ack_latency_seconds Hint acknowledgment latency in seconds
# TYPE morpheus_last_ack_latency_seconds histogram
morpheus_last_ack_latency_seconds_bucket{worker_id=\"7\",le=\"0.00001\"} 1
morpheus_last_ack_latency_seconds_bucket{worker_id=\"7\",le=\"0.00005\"} 3
morpheus_last_ack_latency_seconds_bucket{worker_id=\"7\",le=\"0.0001\"} 3
morpheus_last_ack_latency_seconds_bucket{worker_id=\"7\",le=\"0.0005\"} 3
morpheus_last_ack_latency_seconds_bucket{worker_id=\"7\",le=\"0.001\"} 3
morpheus_last_ack_latency_seconds_bucket{worker_id=\"7\",le=\"0.005\"} 3
morpheus_last_ack_latency_seconds_bucket{worker_id=\"7\",le=\"0.01\"} 3
morpheus_last_ack_latency_seconds_bucket{worker_id=\"7\",le=\"+Inf\"} 4
morpheus_last_ack_latency_seconds_sum{worker_id=\"7\"} 2.000070001
morpheus_last_ack_latency_seconds_count{worker_id=\"7\"} 4
morpheus_last_ack_latency_seconds_bucket{worker_id=\"3\",le=\"0.00001\"} 0
morpheus_last_ack_latency_seconds_bucket{worker_id=\"3\",le=\"0.00005\"} 0
morpheus_last_ack_latency_seconds_bucket{worker_id=\"3\",le=\"0.0001\"} 0
morpheus_last_ack_latency_seconds_bucket{worker_id=\"3\",le=\"0.0005\"} 0
morpheus_last_ack_latency_seconds_bucket{worker_id=\"3\",le=\"0.001\"} 1
morpheus_last_ack_latency_seconds_bucket{worker_id=\"3\",le=\"0.005\"} 1
morpheus_last_ack_latency_seconds_bucket{worker_id=\"3\",le=\"0.01\"} 1
morpheus_last_ack_latency_seconds_bucket{worker_id=\"3\",le=\"+Inf\"} 1
morpheus_last_ack_latency_seconds_sum{worker_id=\"3\"} 0.001
morpheus_last_ack_latency_seconds_count{worker_id=\"3\"} 1
";
    assert_eq!(m.render(), expected);
}

#[test]
fn export_matches_the_float_rendering_of_the_sum() {
    for sum_ns in [1u64, 50_000, 999_999_999, 1_000_000_000, 1_500_000_000, 123_456_789_012] {
        let mut m = MorpheusMetrics::new();
        m.record_ack_latency(0, sum_ns);
        let as_float = format!("{}", sum_ns as f64 / 1_000_000_000.0);
        let line = format!(
            "morpheus_last_ack_latency_seconds_sum{{worker_id=\"0\"}} {}\n",
            as_float
        );
        assert!(m.render().contains(&line), "{}", line);
    }
}

#[test]
fn counters_by_key() {
    let mut m = MorpheusMetrics::new();
    assert_eq!(m.hint_count(0, "budget"), 0);
    m.record_hint(0, "budget");
    m.record_hint(0, "budget");
    m.record_hint(1, "budget");
    m.record_hint(0, "deadline");
    assert_eq!(m.hint_count(0, "budget"), 2);
    assert_eq!(m.hint_count(1, "budget"), 1);
    assert_eq!(m.hint_count(0, "deadline"), 1);
    assert_eq!(m.hint_count(1, "deadline"), 0);
    assert_eq!(m.hint_count(0, ""), 0);
    assert_eq!(m.hint_drops(), 0);
    m.record_hint_drop();
    assert_eq!(m.hint_drops(), 1);
    assert_eq!(m.escalation_count("thread_kick"), 0);
    m.record_escalation("thread_kick");
    m.record_escalation("thread_kick");
    m.record_escalation("cgroup_throttle");
    assert_eq!(m.escalation_count("thread_kick"), 2);
    assert_eq!(m.escalation_count("cgroup_throttle"), 1);
    assert_eq!(m.defensive_mode_count(4), 0);
    m.record_defensive_mode(4);
    assert_eq!(m.defensive_mode_count(4), 1);
    assert_eq!(m.defensive_mode_count(5), 0);
}

#[test]
fn only_the_latest_thousand_samples_are_kept() {
    let mut m = MorpheusMetrics::new();
    for i in 0..1000u64 {
        m.record_ack_latency(1, 20_000_000 + i);
    }
    assert!(m
        .render()
        .contains("morpheus_last_ack_latency_seconds_count{worker_id=\"1\"} 1000\n"));
    assert!(m
        .render()
        .contains("morpheus_last_ack_latency_seconds_bucket{worker_id=\"1\",le=\"0.01\"} 0\n"));
    // One more sample pushes the oldest one out.
    m.record_ack_latency(1, 5);
    let output = m.render();
    assert!(output.contains("morpheus_last_ack_latency_seconds_count{worker_id=\"1\"} 1000\n"));
    assert!(output
        .contains("morpheus_last_ack_latency_seconds_bucket{worker_id=\"1\",le=\"0.00001\"} 1\n"));
    let kept: u64 = (1..1000u64).map(|i| 20_000_000 + i).sum::<u64>() + 5;
    let line = format!(
        "morpheus_last_ack_latency_seconds_sum{{worker_id=\"1\"}} {}\n",
        kept as f64 / 1_000_000_000.0
    );
    assert!(output.contains(&line));
}

#[test]
fn sample_summaries() {
    let samples = vec![10_000u64, 10_001, 0, 50_000, u64::MAX];
    assert_eq!(count_at_most(&samples, 10_000), 2);
    assert_eq!(count_at_most(&samples, 9_999), 1);
    assert_eq!(count_at_most(&samples, 50_000), 4);
    assert_eq!(count_at_most(&samples, u64::MAX), 5);
    assert_eq!(count_at_most(&Vec::new(), 5), 0);
    assert_eq!(saturating_total(&samples), u64::MAX);
    assert_eq!(saturating_total(&vec![1, 2, 3]), 6);
    assert_eq!(saturating_total(&Vec::new()), 0);
    assert_eq!(saturating_total(&vec![u64::MAX - 1, 1]), u64::MAX);
}

#[test]
fn histogram_buckets() {
    let mut histogram = LatencyHistogram::new();
    assert_eq!(histogram.total(), 0);
    assert_eq!(histogram.value_at_rank(1), 1 << 31);
    assert_eq!(histogram.value_at_rank(0), 1);
    // 0 µs falls into bucket 1, 1 and 2 µs into bucket 2, 3 to 6 µs into bucket 3.
    histogram.record(0);
    assert_eq!(histogram.value_at_rank(1), 2);
    histogram.record(1);
    histogram.record(2);
    assert_eq!(histogram.value_at_rank(2), 4);
    assert_eq!(histogram.value_at_rank(3), 4);
    histogram.record(3);
    histogram.record(6);
    assert_eq!(histogram.value_at_rank(4), 8);
    assert_eq!(histogram.value_at_rank(5), 8);
    histogram.record(7);
    assert_eq!(histogram.value_at_rank(6), 16);
    histogram.record(1_000);
    assert_eq!(histogram.value_at_rank(7), 1_024);
    histogram.record(u64::MAX - 1);
    assert_eq!(histogram.value_at_rank(8), 1 << 31);
    assert_eq!(histogram.total(), 8);
    assert_eq!(histogram.value_at_rank(9), 1 << 31);
    assert_eq!(histogram.value_at_rank(1), 2);
}
