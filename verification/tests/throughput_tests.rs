use netmeter::throughput::{
    estimate_steady_window, next_bytes_per_req, steady_window_or_total, throughput_summary,
    upload_chunk_plan, ThroughputSampler, MIN_DOWNLOAD_BYTES_PER_REQ, UPLOAD_CHUNK_SIZE,
};

#[test]
fn backoff_halves_on_429_down_to_floor() {
    let mut size = 10_000_000u64;
    let expected = [5_000_000u64, 2_500_000, 1_250_000, 625_000, 312_500, 156_250, 100_000];
    for want in expected {
        let (next, decreased) = next_bytes_per_req(size, 429);
        assert_eq!(next, want);
        assert!(decreased);
        size = next;
    }
    // at the floor a further 429 changes nothing
    let (next, decreased) = next_bytes_per_req(size, 429);
    assert_eq!(next, MIN_DOWNLOAD_BYTES_PER_REQ);
    assert!(!decreased);
}

#[test]
fn backoff_never_goes_below_floor() {
    let (next, decreased) = next_bytes_per_req(150_000, 429);
    assert_eq!(next, 100_000);
    assert!(decreased);
    // a size already under the floor is left alone
    let (next, decreased) = next_bytes_per_req(60_000, 429);
    assert_eq!(next, 60_000);
    assert!(!decreased);
}

#[test]
fn backoff_ignores_other_statuses() {
    for status in [200u16, 204, 404, 500, 503] {
        let (next, decreased) = next_bytes_per_req(10_000_000, status);
        assert_eq!(next, 10_000_000);
        assert!(!decreased);
    }
}

#[test]
fn steady_window_discards_ramp_up() {
    // 10s phase: discard threshold = max(10s/5, 1s) = 2s
    let samples: Vec<(u64, u64)> = (0..=50u64).map(|i| (i * 200, i * 1_000_000)).collect();
    let (bytes, dt) = estimate_steady_window(&samples, 10_000).unwrap();
    // first sample at or after t=2000 is index 10; window spans 2000..10000
    assert_eq!(dt, 8_000);
    assert_eq!(bytes, 40_000_000);
}

#[test]
fn steady_window_needs_two_samples() {
    assert!(estimate_steady_window(&vec![], 10_000).is_none());
    assert!(estimate_steady_window(&vec![(0, 0)], 10_000).is_none());
}

#[test]
fn steady_window_needs_200ms_span() {
    // all samples within the discarded 2s ramp except a 100ms tail
    let samples = vec![(0u64, 0u64), (2_000, 10), (2_100, 20)];
    assert!(estimate_steady_window(&samples, 10_000).is_none());
    // exactly 200ms is enough
    let samples = vec![(0u64, 0u64), (2_000, 10), (2_200, 20)];
    assert_eq!(estimate_steady_window(&samples, 10_000), Some((10, 200)));
}

#[test]
fn steady_window_ignore_is_at_least_one_second() {
    // 2s phase: 20% would be 400ms, so the 1s floor applies
    let samples = vec![(0u64, 0u64), (500, 100), (1_000, 200), (2_000, 400)];
    let (bytes, dt) = estimate_steady_window(&samples, 2_000).unwrap();
    assert_eq!(dt, 1_000);
    assert_eq!(bytes, 200);
}

#[test]
fn steady_window_fallback_uses_raw_totals() {
    let samples = vec![(0u64, 0u64)];
    assert_eq!(steady_window_or_total(&samples, 10_000, 123_456, 9_876), (123_456, 9_876));
    let samples: Vec<(u64, u64)> = (0..=50u64).map(|i| (i * 200, i * 1_000_000)).collect();
    assert_eq!(steady_window_or_total(&samples, 10_000, 123_456, 9_876), (40_000_000, 8_000));
}

#[test]
fn sampler_records_ticks_and_rates() {
    let mut sampler = ThroughputSampler::new();
    // 1_000_000 bytes in 200 ms = 40_000_000 bits per second
    let bps = sampler.tick(200, 1_000_000);
    assert_eq!(bps, 40_000_000);
    // counter unchanged: zero rate
    let bps = sampler.tick(400, 1_000_000);
    assert_eq!(bps, 0);
    // 2_000_000 more bytes in 200 ms = 80_000_000 bits per second
    let bps = sampler.tick(600, 3_000_000);
    assert_eq!(bps, 80_000_000);
    assert_eq!(sampler.samples_vec().as_slice(), &[(200, 1_000_000), (400, 1_000_000), (600, 3_000_000)]);
    assert_eq!(sampler.rates_vec().as_slice(), &[40_000_000, 0, 80_000_000]);
}

#[test]
fn summary_statistics_come_from_tick_series() {
    let rates = vec![10_000u64, 30_000, 20_000, 40_000];
    let s = throughput_summary(5_000_000, 8_000, &rates);
    assert_eq!(s.bytes, 5_000_000);
    assert_eq!(s.duration_ms, 8_000);
    assert_eq!(s.bps, 25_000);
    assert_eq!(s.mean_bps, Some(25_000));
    assert_eq!(s.median_bps, Some(30_000));
    assert_eq!(s.p25_bps, Some(20_000));
    assert_eq!(s.p75_bps, Some(40_000));
}

#[test]
fn summary_falls_back_to_aggregate_rate() {
    // fewer than two ticks: every statistic is bytes-over-duration
    // 1_000_000 bytes over 2000 ms = 4_000_000 bits per second
    let s = throughput_summary(1_000_000, 2_000, &vec![]);
    assert_eq!(s.bps, 4_000_000);
    assert_eq!(s.mean_bps, Some(4_000_000));
    assert_eq!(s.median_bps, Some(4_000_000));
    assert_eq!(s.p25_bps, Some(4_000_000));
    assert_eq!(s.p75_bps, Some(4_000_000));
    // a zero duration is floored at one millisecond
    let s = throughput_summary(1_000, 0, &vec![]);
    assert_eq!(s.bps, 8_000_000);
    // an absurd rate saturates instead of overflowing
    let s = throughput_summary(u64::MAX, 1, &vec![]);
    assert_eq!(s.bps, u64::MAX);
}

#[test]
fn upload_plan_covers_request_exactly() {
    assert_eq!(upload_chunk_plan(0), (0, 0));
    assert_eq!(upload_chunk_plan(UPLOAD_CHUNK_SIZE), (1, 0));
    assert_eq!(upload_chunk_plan(200_000), (3, 200_000 - 3 * UPLOAD_CHUNK_SIZE));
    let (full, tail) = upload_chunk_plan(10_000_000);
    assert_eq!(full * UPLOAD_CHUNK_SIZE + tail, 10_000_000);
    assert!(tail < UPLOAD_CHUNK_SIZE);
}
