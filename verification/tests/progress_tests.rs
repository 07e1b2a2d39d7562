use clipforge::{parse_progress_line, ProgressTracker};

#[test]
fn parse_microsecond_line() {
    assert_eq!(parse_progress_line(b"out_time_us=1500000"), Some(1_500_000));
    assert_eq!(parse_progress_line(b"out_time_us=0"), Some(0));
    assert_eq!(parse_progress_line(b"out_time_us= 42 "), Some(42));
}

#[test]
fn parse_millisecond_line_converts() {
    assert_eq!(parse_progress_line(b"out_time_ms=1500"), Some(1_500_000));
}

#[test]
fn parse_rejects_other_lines() {
    assert_eq!(parse_progress_line(b"frame=100"), None);
    assert_eq!(parse_progress_line(b"out_time=00:00:01.500000"), None);
    assert_eq!(parse_progress_line(b"out_time_us="), None);
    assert_eq!(parse_progress_line(b"out_time_us=abc"), None);
    assert_eq!(parse_progress_line(b"out_time_us=-12"), None);
    assert_eq!(parse_progress_line(b""), None);
    assert_eq!(parse_progress_line(b"out_time_us=99999999999999999999999999"), None);
}

#[test]
fn tracker_maps_phase_into_window() {
    // Window 45..67, total 5 s, half way through: 45 + 50% of 22 = 56.
    let mut t = ProgressTracker::new(45, 22, Some(5000), 0);
    let r = t.on_line(b"out_time_us=2500000", 200);
    assert_eq!(r, Some(56));
}

#[test]
fn tracker_caps_at_hundred() {
    let mut t = ProgressTracker::new(90, 10, Some(1000), 0);
    let r = t.on_line(b"out_time_us=99000000", 500);
    assert_eq!(r, Some(100));
}

#[test]
fn tracker_without_total_reports_offset() {
    let mut t = ProgressTracker::new(30, 40, None, 0);
    let r = t.on_line(b"out_time_us=5000000", 500);
    assert_eq!(r, Some(30));
}

#[test]
fn tracker_full_phase_reaches_window_end() {
    // A single-clip job: window 0..100, trimmed length 5 s; the final
    // report at the full duration lands on 100.
    let mut t = ProgressTracker::new(0, 100, Some(5000), 0);
    let early = t.on_line(b"out_time_us=1000000", 150);
    assert_eq!(early, Some(20));
    let done = t.on_line(b"out_time_us=5000000", 400);
    assert_eq!(done, Some(100));
}

#[test]
fn throttling_bounds_event_rate() {
    // A synthetic stream emitting one progress line per millisecond for a
    // second must produce no more than about ten events.
    let mut t = ProgressTracker::new(0, 100, Some(1000), 0);
    let mut events = 0;
    for now in 1..=1000u64 {
        let line = format!("out_time_us={}", now * 1000);
        if t.on_line(line.as_bytes(), now).is_some() {
            events += 1;
        }
    }
    assert!(events <= 11, "emitted {} events", events);
    assert!(events >= 1);
}

#[test]
fn throttled_lines_do_not_reset_the_clock() {
    let mut t = ProgressTracker::new(0, 100, Some(1000), 0);
    assert_eq!(t.on_line(b"out_time_us=100000", 50), None);
    // The suppressed line at 50 must not delay the emission at 100.
    assert!(t.on_line(b"out_time_us=200000", 100).is_some());
}

#[test]
fn emissions_monotone_within_phase() {
    let mut t = ProgressTracker::new(10, 80, Some(10000), 0);
    let mut last = 0u32;
    for i in 1..=10u64 {
        let line = format!("out_time_us={}", i * 1_000_000);
        if let Some(p) = t.on_line(line.as_bytes(), i * 150) {
            assert!(p >= last);
            last = p;
        }
    }
    assert_eq!(last, 90);
}
