use std::time::{Duration, Instant};

use shurectl::meter::{clamp_level, PeakWindow, RollingWindow, METER_FLOOR, METER_SILENT};

/// A moment as nanoseconds since a moment well before all tests.
fn nanos(at: Instant, origin: Instant) -> u64 {
    at.duration_since(origin).as_nanos() as u64
}

fn origin() -> Instant {
    Instant::now() - Duration::from_secs(60)
}

const SECOND: u64 = 1_000_000_000;

#[test]
fn rolling_window_empty_returns_none() {
    let w = RollingWindow::new(SECOND);
    assert!(w.max().is_none());
}

#[test]
fn rolling_window_returns_max_of_recent_samples() {
    let mut w = RollingWindow::new(SECOND);
    let t = nanos(Instant::now(), origin());
    w.push(t, -300);
    w.push(t, -100);
    w.push(t, -200);
    assert_eq!(w.max(), Some(-100));
}

#[test]
fn rolling_window_evicts_expired_samples() {
    let mut w = RollingWindow::new(SECOND);
    let start = origin();
    let old = Instant::now() - Duration::from_secs(2);
    let now = Instant::now();

    // Push a high value with a timestamp 2 seconds ago (outside the 1s window).
    w.push(nanos(old, start), -100);
    // Push a low value now — this triggers eviction of the old entry.
    w.push(nanos(now, start), -400);

    assert_eq!(
        w.max(),
        Some(-400),
        "expired sample must be evicted, leaving only the recent low value"
    );
}

#[test]
fn rolling_window_keeps_samples_within_window() {
    let mut w = RollingWindow::new(2 * SECOND);
    let t = nanos(Instant::now(), origin());
    w.push(t, -200);
    w.push(t, -150);
    // Both are within the 2-second window; max should be -150 (i.e. -15.0 dBFS).
    assert_eq!(w.max(), Some(-150));
}

#[test]
fn rolling_window_boundary_sample_is_kept() {
    // A sample exactly at the boundary (0.9 s ago in a 1.0 s window) must
    // not be evicted.
    let mut w = RollingWindow::new(SECOND);
    let start = origin();
    let recent = Instant::now() - Duration::from_millis(900);
    let now = Instant::now();

    w.push(nanos(recent, start), -200);
    w.push(nanos(now, start), -400);

    assert_eq!(
        w.max(),
        Some(-200),
        "sample within the window boundary must be retained"
    );
}

#[test]
fn peak_window_push_updates_both_windows() {
    let mut pw = PeakWindow::new();
    let t = nanos(Instant::now(), origin());
    pw.push(t, -200);
    assert_eq!(pw.short.max(), Some(-200));
    assert_eq!(pw.long.max(), Some(-200));
}

#[test]
fn peak_window_short_evicts_before_long() {
    let mut pw = PeakWindow::new();
    let start = origin();

    // 500 ms ago: within long (3 s) but outside short (0.3 s).
    let old = Instant::now() - Duration::from_millis(500);
    let now = Instant::now();

    pw.push(nanos(old, start), -100);
    // Push a low value now to trigger eviction in the short window.
    pw.push(nanos(now, start), -500);

    assert_eq!(
        pw.short.max(),
        Some(-500),
        "short window must evict the 500ms-old sample"
    );
    assert_eq!(
        pw.long.max(),
        Some(-100),
        "long window must still hold the 500ms-old sample"
    );
}

#[test]
fn peak_window_both_empty_initially() {
    let pw = PeakWindow::new();
    assert!(pw.short.max().is_none());
    assert!(pw.long.max().is_none());
}

#[test]
fn a_level_expires_once_the_window_is_past() {
    let mut w = RollingWindow::new(100);
    w.push(1000, -10);
    w.push(1100, -20);
    // Exactly as old as the window reaches: kept.
    assert_eq!(w.max(), Some(-10));
    w.push(1101, -30);
    assert_eq!(w.max(), Some(-20));
    w.push(5000, -600);
    assert_eq!(w.max(), Some(-600));
}

#[test]
fn a_moment_from_the_future_counts_as_now() {
    let mut w = RollingWindow::new(100);
    w.push(9000, -10);
    w.push(1000, -20);
    assert_eq!(w.max(), Some(-10));
}

#[test]
fn the_peak_marker_is_never_below_the_bar() {
    let mut pw = PeakWindow::default();
    let mut t: u64 = 0;
    for i in 0..500i32 {
        t += 37_000_000;
        pw.push(t, -((i * 7919) % 600));
        assert!(pw.long.max() >= pw.short.max());
        assert!(pw.short.max().is_some());
    }
}

#[test]
fn levels_have_a_floor() {
    assert_eq!(clamp_level(None), -600);
    assert_eq!(clamp_level(Some(-601)), METER_FLOOR);
    assert_eq!(clamp_level(Some(METER_SILENT)), METER_FLOOR);
    assert_eq!(clamp_level(Some(-35)), -35);
    assert_eq!(clamp_level(Some(3)), 3);
}
