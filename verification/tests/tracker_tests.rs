use chrono::{DateTime, Utc};
use steelmouse::tracker::{estimate_text, BatteryTracker, EstimateBasis, Timestamp};

/// The tray program's minute computation: in f64, rate first, then rounded.
fn float_minutes(b: EstimateBasis) -> i64 {
    let rate_per_sec = (b.percent_moved as f64) / (b.elapsed_secs as f64);
    let total_sec_remaining = (b.percent_to_go as f64) / rate_per_sec;
    (total_sec_remaining / 60.0).round() as i64
}

fn ts(t: DateTime<Utc>) -> Timestamp {
    Timestamp { secs: t.timestamp(), nanos: t.timestamp_subsec_nanos() }
}

fn at(secs: i64) -> Timestamp {
    Timestamp { secs, nanos: 0 }
}

#[test]
fn test_battery_tracker_charging_estimate() {
    let mut tracker = BatteryTracker::new();
    let t0 = Utc::now();
    let t1 = t0 + chrono::Duration::seconds(300); // 5 mins later

    tracker.add_sample_with_time(70, true, ts(t0));
    tracker.add_sample_with_time(75, true, ts(t1)); // 5% gained in 300s -> 1% per min

    let estimate = tracker.estimate_time(float_minutes).expect("Should have estimate");
    assert_eq!(estimate, "Full in ~25m");
}

#[test]
fn test_battery_tracker_discharging_estimate() {
    let mut tracker = BatteryTracker::new();
    let t0 = Utc::now();
    let t1 = t0 + chrono::Duration::seconds(3600); // 1 hour later

    tracker.add_sample_with_time(80, false, ts(t0));
    tracker.add_sample_with_time(75, false, ts(t1)); // 5% lost in 1h -> 15 hours remaining for 75%

    let estimate = tracker.estimate_time(float_minutes).expect("Should have estimate");
    assert_eq!(estimate, "~15h 0m left");
}

#[test]
fn no_estimate_without_two_samples() {
    let mut tracker = BatteryTracker::new();
    assert!(tracker.estimate_time(float_minutes).is_none());
    tracker.add_sample_with_time(50, false, at(1000));
    assert!(tracker.estimate_time(float_minutes).is_none());
}

#[test]
fn no_estimate_under_five_seconds() {
    let mut tracker = BatteryTracker::new();
    tracker.add_sample_with_time(50, false, at(1000));
    tracker.add_sample_with_time(49, false, Timestamp { secs: 1004, nanos: 999_999_999 });
    assert!(tracker.estimate_time(float_minutes).is_none());
    let mut tracker = BatteryTracker::new();
    tracker.add_sample_with_time(50, false, at(1000));
    tracker.add_sample_with_time(49, false, at(1005));
    // 49% at 1% per 5 s: 245 s, about 4 minutes
    assert_eq!(tracker.estimate_time(float_minutes).as_deref(), Some("~4m left"));
}

#[test]
fn no_estimate_against_the_trend() {
    // charging but the level fell
    let mut tracker = BatteryTracker::new();
    tracker.add_sample_with_time(60, true, at(0));
    tracker.add_sample_with_time(55, true, at(600));
    assert!(tracker.estimate_time(float_minutes).is_none());
    // discharging but the level rose
    let mut tracker = BatteryTracker::new();
    tracker.add_sample_with_time(55, false, at(0));
    tracker.add_sample_with_time(60, false, at(600));
    assert!(tracker.estimate_time(float_minutes).is_none());
    // full while charging
    let mut tracker = BatteryTracker::new();
    tracker.add_sample_with_time(95, true, at(0));
    tracker.add_sample_with_time(100, true, at(600));
    assert!(tracker.estimate_time(float_minutes).is_none());
    // empty while discharging
    let mut tracker = BatteryTracker::new();
    tracker.add_sample_with_time(5, false, at(0));
    tracker.add_sample_with_time(0, false, at(600));
    assert!(tracker.estimate_time(float_minutes).is_none());
}

#[test]
fn estimate_rounds_to_minutes() {
    // 1% gained in 100 s, 2% missing: 200 s = 3.33 min -> 3 min
    let mut tracker = BatteryTracker::new();
    tracker.add_sample_with_time(97, true, at(0));
    tracker.add_sample_with_time(98, true, at(100));
    assert_eq!(tracker.estimate_time(float_minutes).as_deref(), Some("Full in ~3m"));
    // 1% gained in 10 s, 1% missing: 10 s rounds to 0 min: no estimate
    let mut tracker = BatteryTracker::new();
    tracker.add_sample_with_time(98, true, at(0));
    tracker.add_sample_with_time(99, true, at(10));
    assert!(tracker.estimate_time(float_minutes).is_none());
    // hours and minutes: 10% gained in 3600 s, 50% missing -> 300 min
    let mut tracker = BatteryTracker::new();
    tracker.add_sample_with_time(40, true, at(0));
    tracker.add_sample_with_time(50, true, at(3600));
    assert_eq!(tracker.estimate_time(float_minutes).as_deref(), Some("Full in ~5h 0m"));
    // 1% lost in 90 s, 61% left: 5490 s = 91.5 min -> 92 min
    let mut tracker = BatteryTracker::new();
    tracker.add_sample_with_time(62, false, at(0));
    tracker.add_sample_with_time(61, false, at(90));
    assert_eq!(tracker.estimate_time(float_minutes).as_deref(), Some("~1h 32m left"));
}

#[test]
fn estimate_uses_first_and_last_sample() {
    let mut tracker = BatteryTracker::new();
    tracker.add_sample_with_time(80, false, at(0));
    tracker.add_sample_with_time(79, false, at(60));
    tracker.add_sample_with_time(70, false, at(600));
    // 10% in 600 s, 70% left: 4200 s = 70 min
    assert_eq!(tracker.estimate_time(float_minutes).as_deref(), Some("~1h 10m left"));
}

#[test]
fn repeated_level_keeps_first_time() {
    let mut tracker = BatteryTracker::new();
    tracker.add_sample_with_time(80, false, at(0));
    tracker.add_sample_with_time(80, false, at(500));
    tracker.add_sample_with_time(75, false, at(600));
    // measured from t=0, not t=500: 5% in 600 s, 75% left: 150 min
    assert_eq!(tracker.estimate_time(float_minutes).as_deref(), Some("~2h 30m left"));
}

#[test]
fn charging_change_clears_history() {
    let mut tracker = BatteryTracker::new();
    tracker.add_sample_with_time(80, false, at(0));
    tracker.add_sample_with_time(70, false, at(600));
    assert!(tracker.estimate_time(float_minutes).is_some());
    tracker.add_sample_with_time(70, true, at(700));
    assert!(tracker.estimate_time(float_minutes).is_none());
    tracker.add_sample_with_time(75, true, at(1000));
    // 5% in 300 s, 25% missing: 25 min
    assert_eq!(tracker.estimate_time(float_minutes).as_deref(), Some("Full in ~25m"));
}

#[test]
fn history_keeps_twenty_samples() {
    let mut tracker = BatteryTracker::new();
    // 30 samples, one per minute, 1% each
    for k in 0..30u8 {
        tracker.add_sample_with_time(90 - k, false, at(60 * k as i64));
    }
    // only the last 20 are kept: from 71% at 600 s to 61% at 1740 s
    // 19% in 1140 s, 61% left: 3660 s = 61 min
    assert_eq!(tracker.estimate_time(float_minutes).as_deref(), Some("~1h 1m left"));
}

#[test]
fn add_sample_uses_the_clock() {
    let mut tracker = BatteryTracker::new();
    tracker.add_sample(50, false);
    tracker.add_sample(49, false);
    // taken within five seconds of each other
    assert!(tracker.estimate_time(float_minutes).is_none());
}

#[test]
fn half_minute_cases_follow_floating_point() {
    // 10% -> 5% in 930 s: 15.499999999999998 min in f64
    let mut tracker = BatteryTracker::new();
    tracker.add_sample_with_time(10, false, at(0));
    tracker.add_sample_with_time(5, false, at(930));
    assert_eq!(tracker.estimate_time(float_minutes).as_deref(), Some("~15m left"));
    // 0% -> 5% in 750 s while charging: 237.49999999999997 min in f64
    let mut tracker = BatteryTracker::new();
    tracker.add_sample_with_time(0, true, at(0));
    tracker.add_sample_with_time(5, true, at(750));
    assert_eq!(tracker.estimate_time(float_minutes).as_deref(), Some("Full in ~3h 57m"));
}

#[test]
fn estimate_basis_values() {
    let mut tracker = BatteryTracker::new();
    assert_eq!(tracker.estimate_basis(), None);
    tracker.add_sample_with_time(80, false, at(0));
    tracker.add_sample_with_time(79, false, at(60));
    tracker.add_sample_with_time(70, false, Timestamp { secs: 600, nanos: 500_000_000 });
    assert_eq!(
        tracker.estimate_basis(),
        Some(EstimateBasis { is_charging: false, percent_to_go: 70, percent_moved: 10, elapsed_secs: 600 })
    );
    let mut tracker = BatteryTracker::new();
    tracker.add_sample_with_time(40, true, Timestamp { secs: 10, nanos: 900_000_000 });
    tracker.add_sample_with_time(45, true, Timestamp { secs: 20, nanos: 100_000_000 });
    // 9.2 s are 9 whole seconds
    assert_eq!(
        tracker.estimate_basis(),
        Some(EstimateBasis { is_charging: true, percent_to_go: 55, percent_moved: 5, elapsed_secs: 9 })
    );
}

#[test]
fn estimate_texts() {
    assert_eq!(estimate_text(true, 0), None);
    assert_eq!(estimate_text(false, -3), None);
    assert_eq!(estimate_text(true, 1).as_deref(), Some("Full in ~1m"));
    assert_eq!(estimate_text(true, 59).as_deref(), Some("Full in ~59m"));
    assert_eq!(estimate_text(true, 60).as_deref(), Some("Full in ~1h 0m"));
    assert_eq!(estimate_text(false, 125).as_deref(), Some("~2h 5m left"));
    assert_eq!(estimate_text(false, 7).as_deref(), Some("~7m left"));
}

#[test]
fn default_tracker_is_empty() {
    let tracker = BatteryTracker::default();
    assert_eq!(tracker.estimate_basis(), None);
    assert!(tracker.estimate_time(float_minutes).is_none());
}

#[test]
fn estimate_takes_the_given_minutes() {
    let mut tracker = BatteryTracker::new();
    tracker.add_sample_with_time(80, false, at(0));
    tracker.add_sample_with_time(60, false, at(600));
    assert_eq!(tracker.estimate_time(|_b: EstimateBasis| 90).as_deref(), Some("~1h 30m left"));
    assert_eq!(tracker.estimate_time(|_b: EstimateBasis| 0), None);
    // 20% in 600 s, 60% left: 1800 s = 30 min
    assert_eq!(tracker.estimate_time(float_minutes).as_deref(), Some("~30m left"));
}
