use claude_rust::monitoring::{push_bounded, record_point, retain_since, PerformanceMonitor};

#[test]
fn counters_start_at_zero_and_add() {
    let mut m = PerformanceMonitor::new();
    assert_eq!(m.get_counter("requests_total"), 0);
    m.increment_counter("requests_total", 3);
    m.increment_counter("requests_total", 4);
    m.increment_counter("other", 1);
    assert_eq!(m.get_counter("requests_total"), 7);
    assert_eq!(m.get_counter("other"), 1);
}

#[test]
fn adding_the_largest_value_takes_one_away() {
    let mut m = PerformanceMonitor::new();
    m.increment_counter("active_requests", 5);
    m.increment_counter("active_requests", u64::MAX);
    assert_eq!(m.get_counter("active_requests"), 4);
}

#[test]
fn a_request_round_trip_leaves_active_requests_as_they_were() {
    let mut m = PerformanceMonitor::new();
    m.record_request_start();
    assert_eq!(m.get_counter("active_requests"), 1);
    m.record_request_end(true);
    m.record_request_start();
    m.record_request_end(false);
    m.record_request_start();
    assert_eq!(m.get_counter("requests_total"), 3);
    assert_eq!(m.get_counter("requests_successful"), 1);
    assert_eq!(m.get_counter("requests_failed"), 1);
    assert_eq!(m.get_counter("active_requests"), 1);
}

#[test]
fn bounded_histograms_keep_the_latest_values() {
    let mut values: Vec<f64> = Vec::new();
    for i in 0..5 {
        push_bounded(&mut values, i as f64, 3);
    }
    assert_eq!(values, vec![2.0, 3.0, 4.0]);
    let mut few = vec![1, 2];
    push_bounded(&mut few, 3, 10);
    assert_eq!(few, vec![1, 2, 3]);
}

#[test]
fn series_keep_points_of_the_last_day() {
    let mut series: Vec<(u64, f64)> = vec![(10, 1.0), (100_000, 2.0), (50, 3.0), (150_000, 4.0)];
    retain_since(&mut series, 100);
    assert_eq!(series, vec![(100_000, 2.0), (150_000, 4.0)]);
    record_point(&mut series, 200_000, 5.0);
    assert_eq!(series, vec![(150_000, 4.0), (200_000, 5.0)]);
    let mut early: Vec<(u64, u8)> = vec![(0, 1)];
    record_point(&mut early, 5, 2);
    assert_eq!(early, vec![(0, 1), (5, 2)]);
}
