use vasili::record::PingStatus;
use vasili::sample::SourceType;
use vasili::stats::HostStats;

fn ts() -> String {
    "2024-01-01 00:00:00.000".to_string()
}

#[test]
fn scenario_four_samples() {
    // Target samples 12ms, 15ms, timeout, 20ms at one-second ticks.
    let mut stats = HostStats::new("8.8.8.8".to_string());
    stats.update(SourceType::Target, Some(12000), 0, 0, ts());
    stats.update(SourceType::Target, Some(15000), 1000, 0, ts());
    stats.update(SourceType::Target, None, 2000, 0, ts());
    stats.update(SourceType::Target, Some(20000), 3000, 0, ts());

    assert_eq!(stats.total_count, 4);
    assert_eq!(stats.loss_count, 1);
    assert_eq!(stats.points, vec![(0, 12000), (1000, 15000), (3000, 20000)]);
    assert_eq!(
        stats.jitter_points,
        vec![(0, 0), (1000, 3000), (3000, 5000)]
    );
    assert_eq!(stats.spikes_minor, 0);
    assert_eq!(stats.spikes_major, 1);
    assert_eq!(stats.loss_points.len(), 1);
    assert_eq!(stats.loss_points[0].0, 2000);
}

#[test]
fn total_count_splits_into_points_and_losses() {
    let mut stats = HostStats::new("host".to_string());
    let pattern = [
        Some(5000u64),
        None,
        None,
        Some(7000),
        Some(9000),
        None,
        Some(1000),
    ];
    for (i, latency) in pattern.iter().enumerate() {
        stats.update(SourceType::Target, *latency, i as u64 * 1000, 0, ts());
    }
    assert_eq!(stats.total_count, 7);
    assert_eq!(stats.loss_count, 3);
    assert_eq!(
        stats.total_count,
        (stats.points.len() + stats.loss_points.len()) as u64
    );
    assert_eq!(stats.loss_count, stats.loss_points.len() as u64);
}

#[test]
fn jitter_is_zero_first_then_absolute_difference() {
    let mut stats = HostStats::new("host".to_string());
    stats.update(SourceType::Target, Some(40000), 0, 0, ts());
    assert_eq!(stats.current_jitter, 0);
    stats.update(SourceType::Target, Some(25000), 1000, 0, ts());
    assert_eq!(stats.current_jitter, 15000);
    stats.update(SourceType::Target, Some(26000), 2000, 0, ts());
    assert_eq!(stats.current_jitter, 1000);
    // A timeout does not disturb the jitter chain.
    stats.update(SourceType::Target, None, 3000, 0, ts());
    stats.update(SourceType::Target, Some(30000), 4000, 0, ts());
    assert_eq!(stats.current_jitter, 4000);
}

#[test]
fn eleven_latencies_define_percentiles() {
    // Latencies 1..=11 ms: sorted 0-indexed, p25 reads index 3, p75 index 8,
    // p99 index 10.
    let mut stats = HostStats::new("host".to_string());
    for i in 1..=11u64 {
        stats.update(SourceType::Target, Some(i * 1000), i * 1000, 0, ts());
    }
    assert_eq!(stats.p25, 4000);
    assert_eq!(stats.p75, 9000);
    assert_eq!(stats.p99, 11000);
}

#[test]
fn ten_latencies_leave_percentiles_undefined() {
    let mut stats = HostStats::new("host".to_string());
    for i in 1..=10u64 {
        stats.update(SourceType::Target, Some(i * 1000), i * 1000, 0, ts());
    }
    assert_eq!(stats.p25, 0);
    assert_eq!(stats.p75, 0);
    assert_eq!(stats.p99, 0);
}

#[test]
fn recalculation_is_idempotent() {
    let mut stats = HostStats::new("host".to_string());
    for i in 1..=25u64 {
        stats.update(SourceType::Target, Some((i % 7) * 3000 + 500), i, 0, ts());
    }
    stats.recalculate_percentiles();
    let first = (stats.p25, stats.p75, stats.p99);
    stats.recalculate_percentiles();
    assert_eq!(first, (stats.p25, stats.p75, stats.p99));
}

#[test]
fn percentiles_are_ordered() {
    let mut stats = HostStats::new("host".to_string());
    let values = [
        9000u64, 1000, 88000, 4000, 120000, 2500, 61000, 3000, 47000, 15000, 700, 33000,
    ];
    for (i, v) in values.iter().enumerate() {
        stats.update(SourceType::Target, Some(*v), i as u64, 0, ts());
    }
    assert!(stats.p25 <= stats.p75);
    assert!(stats.p75 <= stats.p99);
}

#[test]
fn recalc_throttles_after_fifty_samples() {
    let mut stats = HostStats::new("host".to_string());
    // 60 samples, all at wall-clock 0: the first recalculations are eager,
    // but from sample 50 on the one-second throttle holds them back.
    for i in 0..60u64 {
        stats.update(SourceType::Target, Some(i * 1000), i, 0, ts());
    }
    let before = (stats.p25, stats.p75, stats.p99);
    // More samples within the same wall-clock second change nothing cached.
    stats.update(SourceType::Target, Some(500000), 60, 0, ts());
    assert_eq!(before, (stats.p25, stats.p75, stats.p99));
    // Once the clock advances a full second, the cache catches up.
    stats.update(SourceType::Target, Some(500000), 61, 2000, ts());
    assert!(stats.p99 >= 400000);
}

#[test]
fn spike_classes_are_mutually_exclusive() {
    let mut stats = HostStats::new("host".to_string());
    stats.update(SourceType::Target, Some(29999), 0, 0, ts());
    assert_eq!((stats.spikes_minor, stats.spikes_major), (0, 0));
    stats.update(SourceType::Target, Some(30000), 1, 0, ts());
    assert_eq!((stats.spikes_minor, stats.spikes_major), (1, 0));
    stats.update(SourceType::Target, Some(99999), 2, 0, ts());
    assert_eq!((stats.spikes_minor, stats.spikes_major), (2, 0));
    stats.update(SourceType::Target, Some(100000), 3, 0, ts());
    assert_eq!((stats.spikes_minor, stats.spikes_major), (2, 1));
    stats.update(SourceType::Target, None, 4, 0, ts());
    assert_eq!((stats.spikes_minor, stats.spikes_major), (2, 2));
}

#[test]
fn records_carry_the_sample() {
    let mut stats = HostStats::new("1.1.1.1".to_string());
    let ok = stats.update(
        SourceType::Target,
        Some(12500),
        0,
        0,
        "2024-05-06 07:08:09.123".to_string(),
    );
    assert_eq!(ok.timestamp, "2024-05-06 07:08:09.123");
    assert_eq!(ok.target_type, SourceType::Target);
    assert_eq!(ok.target_ip, "1.1.1.1");
    assert_eq!(ok.latency_us, Some(12500));
    assert_eq!(ok.status, PingStatus::Okay);

    let lost = stats.update(SourceType::Target, None, 1000, 0, ts());
    assert_eq!(lost.latency_us, None);
    assert_eq!(lost.status, PingStatus::Timeout);
    assert_eq!(lost.target_ip, "1.1.1.1");
}

#[test]
fn grades_for_target_traffic() {
    let mut stats = HostStats::new("host".to_string());
    assert_eq!(stats.calculate_grade(false), "S");
    stats.p99 = 40000;
    assert_eq!(stats.calculate_grade(false), "A");
    stats.p99 = 70000;
    assert_eq!(stats.calculate_grade(false), "B");
    stats.p99 = 100000;
    assert_eq!(stats.calculate_grade(false), "C");
    stats.p99 = 150000;
    assert_eq!(stats.calculate_grade(false), "F");

    // Loss thresholds: 1 loss in 1000 is 0.1% (grade A), 5 in 1000 is 0.5%
    // (grade B), 20 in 1000 is 2% (grade C), 50 in 1000 is 5% (grade F).
    stats.p99 = 0;
    stats.total_count = 1000;
    stats.loss_count = 1;
    assert_eq!(stats.calculate_grade(false), "A");
    stats.loss_count = 5;
    assert_eq!(stats.calculate_grade(false), "B");
    stats.loss_count = 20;
    assert_eq!(stats.calculate_grade(false), "C");
    stats.loss_count = 50;
    assert_eq!(stats.calculate_grade(false), "F");
}

#[test]
fn grades_for_gateway_traffic_are_stricter() {
    let mut stats = HostStats::new("gw".to_string());
    assert_eq!(stats.calculate_grade(true), "S");
    stats.p99 = 5000;
    assert_eq!(stats.calculate_grade(true), "A");
    stats.p99 = 10000;
    assert_eq!(stats.calculate_grade(true), "B");
    stats.p99 = 25000;
    assert_eq!(stats.calculate_grade(true), "C");
    stats.p99 = 50000;
    assert_eq!(stats.calculate_grade(true), "F");

    stats.p99 = 0;
    stats.total_count = 1000;
    stats.loss_count = 1;
    // Any loss at all already costs the gateway a C; 1% costs an F.
    assert_eq!(stats.calculate_grade(true), "C");
    stats.loss_count = 10;
    assert_eq!(stats.calculate_grade(true), "F");
}

#[test]
fn loss_fraction_matches_absent_samples() {
    let mut stats = HostStats::new("host".to_string());
    for i in 0..200u64 {
        let latency = if i % 4 == 0 { None } else { Some(8000) };
        stats.update(SourceType::Target, latency, i * 1000, 0, ts());
    }
    assert_eq!(stats.total_count, 200);
    assert_eq!(stats.loss_count, 50);
}
