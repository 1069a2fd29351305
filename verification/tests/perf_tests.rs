use sqsh::perf::{is_slow, Duration, LatencyGuard, LatencyStats};

#[test]
fn test_latency_stats_empty() {
    let stats = LatencyStats::new();
    assert_eq!(stats.count, 0);
    assert!(stats.average().is_none());
}

#[test]
fn test_latency_stats_single() {
    let mut stats = LatencyStats::new();
    let duration = Duration::from_millis(100);
    stats.add(duration);

    assert_eq!(stats.count, 1);
    assert_eq!(stats.average(), Some(duration));
    assert_eq!(stats.min, Some(duration));
    assert_eq!(stats.max, Some(duration));
}

#[test]
fn test_latency_stats_multiple() {
    let mut stats = LatencyStats::new();
    stats.add(Duration::from_millis(50));
    stats.add(Duration::from_millis(100));
    stats.add(Duration::from_millis(150));

    assert_eq!(stats.count, 3);
    assert_eq!(stats.min, Some(Duration::from_millis(50)));
    assert_eq!(stats.max, Some(Duration::from_millis(150)));

    let avg = stats.average().unwrap();
    assert!(avg >= Duration::from_millis(99) && avg <= Duration::from_millis(101));
}

#[test]
fn test_latency_guard() {
    let guard = LatencyGuard::new("test_operation");
    let start = std::time::Instant::now();
    while start.elapsed() < std::time::Duration::from_millis(10) {}
    let duration = guard.finish();

    assert!(duration >= Duration::from_millis(10));
}

#[test]
fn test_latency_stats_format() {
    let mut stats = LatencyStats::new();
    stats.add(Duration::from_millis(50));
    stats.add(Duration::from_millis(100));

    let formatted = stats.format();
    assert!(formatted.contains("count=2"));
    assert!(formatted.contains("avg="));
    assert!(formatted.contains("min="));
    assert!(formatted.contains("max="));
}

// Further cases of this library.

#[test]
fn format_matches_the_debug_text_of_std_durations() {
    let mut stats = LatencyStats::new();
    stats.add(Duration::from_millis(50));
    stats.add(Duration::from_millis(100));
    assert_eq!(stats.format(), "count=2, avg=75ms, min=50ms, max=100ms");
    assert_eq!(LatencyStats::new().format(), "No data");
    assert_eq!(Duration::new(1, 500_000_000).debug_string(), "1.5s");
}

#[test]
fn average_rounds_down_to_the_nanosecond() {
    let mut stats = LatencyStats::new();
    stats.add(Duration::new(1, 1));
    stats.add(Duration::new(0, 0));
    stats.add(Duration::new(0, 1));
    let avg = stats.average().unwrap();
    assert_eq!(avg.as_nanos(), 1_000_000_002 / 3);
    let std_avg = std::time::Duration::new(1, 2) / 3;
    assert_eq!(avg.as_nanos(), std_avg.as_nanos());
}

#[test]
fn average_lies_between_min_and_max() {
    let mut stats = LatencyStats::default();
    for ms in [7u64, 3, 11, 5] {
        stats.add(Duration::from_millis(ms));
    }
    let avg = stats.average().unwrap();
    assert!(stats.min.unwrap() <= avg && avg <= stats.max.unwrap());
    assert_eq!(stats.total, Duration::from_millis(26));
}

#[test]
fn duration_parts_round_trip() {
    let d = Duration::new(3, 250);
    assert_eq!(d.as_secs(), 3);
    assert_eq!(d.subsec_nanos(), 250);
    assert_eq!(d.as_millis(), 3000);
    assert_eq!(Duration::from_secs(2).checked_add(Duration::from_millis(5)), Some(Duration::new(2, 5_000_000)));
    assert_eq!(Duration::from_secs(1).checked_div(0), None);
}

#[test]
fn operations_over_a_hundred_milliseconds_are_slow() {
    assert!(!is_slow(&Duration::from_millis(100)));
    assert!(!is_slow(&Duration::new(0, 100_999_999)));
    assert!(is_slow(&Duration::from_millis(101)));
    assert!(is_slow(&Duration::from_secs(2)));
}
