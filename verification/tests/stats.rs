use signal_pingpong::stats::LatencyAccumulator;

#[test]
fn fresh_accumulator_has_sentinels() {
    let a = LatencyAccumulator::new(0);
    assert_eq!(a.minimum_ns, u64::MAX);
    assert_eq!(a.maximum_ns, 0);
    assert_eq!(a.sum_ns, 0);
    assert_eq!(a.squared_sum_ns2, 0);
    assert_eq!(a.count, 0);
    assert_eq!(a.total_start_ns, 0);
    assert_eq!(a.round_start_ns, 0);
}

#[test]
fn update_folds_min_max_sum_count() {
    let mut a = LatencyAccumulator::new(0);
    for d in [5u64, 3, 9] {
        a.update(d);
    }
    assert_eq!(a.minimum_ns, 3);
    assert_eq!(a.maximum_ns, 9);
    assert_eq!(a.sum_ns, 17);
    assert_eq!(a.squared_sum_ns2, 25 + 9 + 81);
    assert_eq!(a.count, 3);
}

#[test]
fn first_sample_lowers_minimum_and_raises_maximum() {
    let mut a = LatencyAccumulator::new(0);
    a.update(1_000);
    assert_eq!(a.minimum_ns, 1_000);
    assert_eq!(a.maximum_ns, 1_000);
}

#[test]
fn update_ignores_round_start() {
    let mut a = LatencyAccumulator::new(100);
    a.begin_round(250);
    assert_eq!(a.round_start_ns, 250);
    assert_eq!(a.total_start_ns, 100);
    a.update(40);
    assert_eq!(a.round_start_ns, 250);
    assert_eq!(a.total_start_ns, 100);
}

#[test]
fn single_sample_summary_collapses() {
    let mut a = LatencyAccumulator::new(0);
    a.update(7);
    let s = a.summarize(10, 1);
    assert_eq!(s.count, 1);
    assert_eq!(s.average_ns, 7);
    assert_eq!(s.minimum_ns, 7);
    assert_eq!(s.maximum_ns, 7);
    assert_eq!(s.variance_ns2, 0);
    assert_eq!(s.total_elapsed_ns, 10);
}

#[test]
fn summarize_computes_exact_statistics() {
    let mut a = LatencyAccumulator::new(100);
    a.update(40);
    a.update(60);
    let s = a.summarize(300, 8);
    assert_eq!(s.count, 2);
    assert_eq!(s.payload_size, 8);
    assert_eq!(s.total_elapsed_ns, 200);
    // mean of {40, 60}
    assert_eq!(s.average_ns, 50);
    assert_eq!(s.minimum_ns, 40);
    assert_eq!(s.maximum_ns, 60);
    // (40^2 + 60^2)/2 - 50^2 = 2600 - 2500
    assert_eq!(s.variance_ns2, 100);
    // 2 messages per 200 ns
    assert_eq!(s.message_rate_num, 2_000_000_000);
    assert_eq!(s.message_rate_den, 200);
    // 2 * 8 bytes per 200 ns, scaled by one MiB
    assert_eq!(s.throughput_num, 16_000_000_000);
    assert_eq!(s.throughput_den, 200 * 1_048_576);
}

#[test]
fn throughput_rational_matches_rate_times_payload() {
    let mut a = LatencyAccumulator::new(0);
    a.update(120);
    a.update(80);
    a.update(100);
    let s = a.summarize(1_000, 64);
    // throughput == message_rate * payload_size / 2^20, cross-multiplied
    assert_eq!(
        s.throughput_num * (s.message_rate_den * 1_048_576),
        (s.message_rate_num * s.payload_size as u128) * s.throughput_den
    );
    // message_rate == count / elapsed_seconds, cross-multiplied
    assert_eq!(
        s.message_rate_num * s.total_elapsed_ns as u128,
        s.count as u128 * (s.message_rate_den * 1_000_000_000)
    );
}

#[test]
fn variance_is_floored_at_zero() {
    let mut a = LatencyAccumulator::new(0);
    // {1, 2}: mean 1, mean of squares 2, 2 - 1 = 1
    a.update(1);
    a.update(2);
    let s = a.summarize(5, 1);
    assert_eq!(s.average_ns, 1);
    assert_eq!(s.variance_ns2, 1);
    // {3, 3, 3}: exactly zero spread
    let mut b = LatencyAccumulator::new(0);
    b.update(3);
    b.update(3);
    b.update(3);
    let t = b.summarize(5, 1);
    assert_eq!(t.variance_ns2, 0);
}
