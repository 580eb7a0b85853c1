use cursorhome::ShakeDetector;

fn running(sensitivity_milli: i64) -> ShakeDetector {
    let mut d = ShakeDetector::new(sensitivity_milli);
    d.start();
    d
}

#[test]
fn alternating_motion_is_a_shake() {
    let mut d = running(1000);
    let xs = [0, 100, 0, 100, 0, 100];
    let mut hits = Vec::new();
    for (i, x) in xs.iter().enumerate() {
        hits.push(d.record_position(*x, 0, 40 * i as u64));
    }
    assert_eq!(hits, vec![false, false, false, false, false, true]);
    assert_eq!(d.window_len(), 0);
}

#[test]
fn five_alternating_samples_make_only_three_changes() {
    let mut d = running(1000);
    for (i, x) in [0, 100, 0, 100, 0].iter().enumerate() {
        assert!(!d.record_position(*x, 0, 50 * i as u64));
    }
    assert_eq!(d.window_len(), 5);
}

#[test]
fn monotone_motion_is_never_a_shake() {
    let mut d = running(1000);
    for (i, x) in [0, 50, 100, 150, 200].iter().enumerate() {
        assert!(!d.record_position(*x, 0, 50 * i as u64));
    }
}

#[test]
fn slow_wiggle_stays_below_threshold() {
    let mut d = running(1000);
    for (i, x) in [0, 10, 0, 10, 0, 10].iter().enumerate() {
        assert!(!d.record_position(*x, 0, 78 * i as u64));
    }
}

#[test]
fn middle_sensitivity_detects_a_brisk_shake() {
    let mut d = running(500);
    let mut detected = false;
    for (i, x) in [0, 100, 0, 100, 0, 100].iter().enumerate() {
        detected = d.record_position(*x, 0, 40 * i as u64);
    }
    assert!(detected);
}

#[test]
fn old_samples_leave_the_window() {
    let mut d = running(1000);
    for (i, x) in [0, 100, 0, 100, 0].iter().enumerate() {
        assert!(!d.record_position(*x, 0, 10 * i as u64));
    }
    assert!(!d.record_position(100, 0, 500));
    assert_eq!(d.window_len(), 1);
}

#[test]
fn stopped_detector_ignores_motion() {
    let mut d = ShakeDetector::new(1000);
    assert!(!d.is_running());
    for (i, x) in [0, 100, 0, 100, 0, 100].iter().enumerate() {
        assert!(!d.record_position(*x, 0, 40 * i as u64));
    }
    assert_eq!(d.window_len(), 0);
    d.start();
    d.record_position(5, 5, 300);
    assert_eq!(d.window_len(), 1);
    d.stop();
    assert_eq!(d.window_len(), 0);
    assert!(!d.is_running());
}

#[test]
fn sensitivity_is_clamped() {
    assert_eq!(ShakeDetector::new(-5).sensitivity_milli(), 0);
    assert_eq!(ShakeDetector::new(2000).sensitivity_milli(), 1000);
    let mut d = ShakeDetector::default();
    assert_eq!(d.sensitivity_milli(), 500);
    d.set_sensitivity(1500);
    assert_eq!(d.sensitivity_milli(), 1000);
    d.set_sensitivity(250);
    assert_eq!(d.sensitivity_milli(), 250);
}
