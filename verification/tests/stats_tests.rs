use netmeter::metrics::{compute_jitter, compute_latency_metrics, compute_metrics, compute_throughput_metrics, sort_samples};
use netmeter::model::LatencySummary;
use netmeter::stats::{latency_summary_from_samples, loss_ppm, OnlineStats};

#[test]
fn online_stats_accumulators_are_exact() {
    let mut stats = OnlineStats::new();
    for x in [3u64, 1, 4, 1, 5] {
        stats.push(x);
    }
    assert_eq!(stats.count(), 5);
    assert_eq!(stats.sum(), 14);
    assert_eq!(stats.sum_sq(), 9 + 1 + 16 + 1 + 25);
    // variance ratio: (5 * 52 - 14^2, 25) = (64, 25)
    assert_eq!(stats.variance_ratio(), Some((64, 25)));

    let mut short = OnlineStats::new();
    short.push(7);
    assert_eq!(short.variance_ratio(), None);
}

/// The standard deviation derived from the streaming accumulators matches
/// the two-pass (mean-then-variance) computation within 1e-9 relative
/// error, for any finite sample stream.
#[test]
fn online_stats_stddev_matches_two_pass() {
    let streams: Vec<Vec<u64>> = vec![
        vec![1, 2],
        vec![10, 10, 10, 10],
        vec![1, 1000000, 37, 42, 99999, 7],
        vec![5, 8, 13, 21, 34, 55, 89, 144, 233, 377],
    ];
    for samples in streams {
        let mut stats = OnlineStats::new();
        for &x in &samples {
            stats.push(x);
        }
        let n = stats.count() as f64;
        let (num, den) = stats.variance_ratio().unwrap();
        let streaming_stddev = (num as f64 / den as f64).sqrt();

        let mean: f64 = samples.iter().map(|&x| x as f64).sum::<f64>() / n;
        let two_pass_var: f64 =
            samples.iter().map(|&x| (x as f64 - mean) * (x as f64 - mean)).sum::<f64>() / n;
        let two_pass_stddev = two_pass_var.sqrt();

        let denom = two_pass_stddev.abs().max(1e-30);
        assert!(
            ((streaming_stddev - two_pass_stddev) / denom).abs() < 1e-9,
            "streaming {streaming_stddev} vs two-pass {two_pass_stddev}"
        );
    }
}

#[test]
fn metrics_of_one_two_three_four() {
    let m = compute_metrics(&vec![1u64, 2, 3, 4]).unwrap();
    assert_eq!(m.count, 4);
    assert_eq!(m.sum, 10);
    assert_eq!(m.sum as f64 / m.count as f64, 2.5);
    assert_eq!(m.median, 3);
    assert_eq!(m.p25, 2);
    assert_eq!(m.p75, 4);
}

#[test]
fn metrics_need_two_samples() {
    assert!(compute_metrics(&vec![]).is_none());
    assert!(compute_metrics(&vec![7u64]).is_none());
    assert!(compute_latency_metrics(&vec![]).is_none());
    assert!(compute_latency_metrics(&vec![7u64]).is_none());
    assert!(compute_throughput_metrics(&vec![]).is_none());
    assert!(compute_throughput_metrics(&vec![(0u64, 7u64)]).is_none());
}

#[test]
fn metrics_use_unsorted_mean_and_sorted_ranks() {
    let m = compute_metrics(&vec![9u64, 1, 5, 3, 7]).unwrap();
    assert_eq!(m.sum, 25);
    assert_eq!(m.mean, 5);
    // sorted: [1, 3, 5, 7, 9]; median = sorted[5/2], p25 = sorted[5/4], p75 = sorted[15/4]
    assert_eq!(m.median, 5);
    assert_eq!(m.p25, 3);
    assert_eq!(m.p75, 7);
}

#[test]
fn metrics_handle_the_largest_samples() {
    let m = compute_metrics(&vec![u64::MAX, u64::MAX, u64::MAX]).unwrap();
    assert_eq!(m.sum, 3 * (u64::MAX as u128));
    assert_eq!(m.mean, u64::MAX);
    assert_eq!(m.median, u64::MAX);
    let mut stats = OnlineStats::new();
    stats.push(u32::MAX as u64);
    stats.push(u32::MAX as u64);
    assert_eq!(stats.sum(), 2 * (u32::MAX as u128));
    assert_eq!(stats.sum_sq(), 2 * (u32::MAX as u128) * (u32::MAX as u128));
}

#[test]
fn throughput_metrics_take_rate_values() {
    let points = vec![(0u64, 9u64), (200, 1), (400, 5), (600, 3), (800, 7)];
    let m = compute_throughput_metrics(&points).unwrap();
    assert_eq!(m.sum, 25);
    assert_eq!(m.median, 5);
}

#[test]
fn sort_samples_orders_ascending() {
    let sorted = sort_samples(&vec![4u64, 1, 3, 1, 2]);
    assert_eq!(sorted, vec![1, 1, 2, 3, 4]);
    let empty = sort_samples(&vec![]);
    assert!(empty.is_empty());
}

#[test]
fn jitter_is_mean_absolute_consecutive_difference() {
    // |2-1| + |5-2| + |3-5| = 6 over 3 gaps
    assert_eq!(compute_jitter(&vec![1u64, 2, 5, 3]), Some(2));
    assert_eq!(compute_jitter(&vec![]), None);
    assert_eq!(compute_jitter(&vec![10u64]), None);
    // input order matters: sorted order would give a different sum
    assert_eq!(compute_jitter(&vec![10u64, 0, 10]), Some(10));
}

#[test]
fn loss_ppm_is_complement_of_received_over_sent() {
    assert_eq!(loss_ppm(0, 0), 0);
    assert_eq!(loss_ppm(50, 50), 0);
    assert_eq!(loss_ppm(50, 0), 1_000_000);
    assert_eq!(loss_ppm(50, 25), 500_000);
    assert_eq!(loss_ppm(3, 2), 333_333);
}

#[test]
fn latency_summary_from_full_sample_set() {
    let samples = vec![30_000u64, 10_000, 20_000, 40_000];
    let s = latency_summary_from_samples(5, 4, &samples, Some(1_500));
    assert_eq!(s.sent, 5);
    assert_eq!(s.received, 4);
    assert_eq!(s.loss_ppm, 200_000);
    assert_eq!(s.min_us, Some(10_000));
    assert_eq!(s.max_us, Some(40_000));
    assert_eq!(s.mean_us, Some(25_000));
    assert_eq!(s.median_us, Some(30_000));
    assert_eq!(s.p25_us, Some(20_000));
    assert_eq!(s.p75_us, Some(40_000));
    assert_eq!(s.jitter_us, Some(1_500));
}

#[test]
fn latency_summary_with_too_few_samples() {
    let s = latency_summary_from_samples(2, 1, &vec![12_345u64], None);
    assert_eq!(s.min_us, Some(12_345));
    assert_eq!(s.max_us, Some(12_345));
    assert_eq!(s.mean_us, None);
    assert_eq!(s.median_us, None);
    assert_eq!(s.p25_us, None);
    assert_eq!(s.p75_us, None);

    let empty = latency_summary_from_samples(3, 0, &vec![], None);
    assert_eq!(empty.min_us, None);
    assert_eq!(empty.max_us, None);
    assert_eq!(empty.loss_ppm, 1_000_000);
}

#[test]
fn failed_summary_reports_total_loss() {
    let s = LatencySummary::failed();
    assert_eq!(s.sent, 0);
    assert_eq!(s.received, 0);
    assert_eq!(s.loss_ppm, 1_000_000);
    assert!(s.min_us.is_none() && s.max_us.is_none() && s.mean_us.is_none());
    assert!(s.median_us.is_none() && s.p25_us.is_none() && s.p75_us.is_none());
    assert!(s.jitter_us.is_none());

    let d = LatencySummary::default();
    assert_eq!(d.sent, 0);
    assert_eq!(d.loss_ppm, 0);
}
