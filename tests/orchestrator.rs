use cursorhome::{
    AnimationSession, CursorFinderService, CursorTransition, FinderError, MonitorGeometry,
    OverlayCommand, Preferences, ShakeDetector, TransitionType, PPM,
};

fn shown_at(c: OverlayCommand) -> (i32, i32, AnimationSession) {
    match c {
        OverlayCommand::Show { x, y, session } => (x, y, session),
        other => panic!("expected a show command, got {:?}", other),
    }
}

#[test]
fn find_cursor_falls_back_to_a_fixed_point() {
    let mut f = CursorFinderService::new(Preferences::default());
    let (x, y, s) = shown_at(f.find_cursor(1000));
    assert_eq!((x, y), (960, 540));
    assert_eq!(s.start_ms, 1000);
    assert_eq!(s.duration_ms, 5000);
    assert!(f.is_active());
}

#[test]
fn find_cursor_prefers_last_position_then_primary_center() {
    let mut f = CursorFinderService::new(Preferences::default());
    f.refresh_displays(vec![MonitorGeometry {
        name: "DP-1".to_string(),
        x: 0,
        y: 0,
        width: 2560,
        height: 1440,
        scale_factor: 1,
    }]);
    assert_eq!(shown_at(f.find_cursor(0)).0, 1280);
    assert_eq!(f.update_cursor_position(10, 20), OverlayCommand::MoveTo { x: 10, y: 20 });
    let (x, y, _) = shown_at(f.find_cursor(5));
    assert_eq!((x, y), (10, 20));
}

#[test]
fn disabled_finder_does_nothing() {
    let prefs = Preferences { enabled: false, ..Preferences::default() };
    let mut f = CursorFinderService::new(prefs);
    assert_eq!(f.find_cursor(0), OverlayCommand::Nothing);
    assert_eq!(f.on_shake(0), OverlayCommand::Nothing);
    assert!(!f.is_active());
}

#[test]
fn shake_needs_shake_detection_enabled() {
    let prefs = Preferences { shake_enabled: false, ..Preferences::default() };
    let mut f = CursorFinderService::new(prefs);
    assert_eq!(f.on_shake(0), OverlayCommand::Nothing);
    let mut g = CursorFinderService::new(Preferences::default());
    assert!(matches!(g.on_shake(0), OverlayCommand::Show { .. }));
}

#[test]
fn only_returns_trigger_a_highlight() {
    let mut f = CursorFinderService::new(Preferences::default());
    let left = CursorTransition { transition_type: TransitionType::Left, screen_name: "A".to_string() };
    assert_eq!(f.on_transition(&left, 0), OverlayCommand::Nothing);
    let back = CursorTransition { transition_type: TransitionType::Returned, screen_name: "A".to_string() };
    assert!(matches!(f.on_transition(&back, 0), OverlayCommand::Show { .. }));
}

#[test]
fn center_on_primary_needs_a_screen() {
    let mut f = CursorFinderService::new(Preferences::default());
    assert_eq!(f.center_on_primary(0), Err(FinderError::NoPrimaryDisplay));
    f.refresh_displays(vec![MonitorGeometry {
        name: "DP-1".to_string(),
        x: 100,
        y: 0,
        width: 1000,
        height: 500,
        scale_factor: 2,
    }]);
    let (x, y, _) = shown_at(f.center_on_primary(0).unwrap());
    assert_eq!((x, y), (600, 250));
}

#[test]
fn ticks_draw_until_the_duration_ends() {
    let mut f = CursorFinderService::new(Preferences::default());
    assert_eq!(f.tick(0, None), OverlayCommand::Nothing);
    f.show_highlight_at(50, 60, 1000);
    match f.tick(1000, None) {
        OverlayCommand::Draw { x, y, plan } => {
            assert_eq!((x, y), (50, 60));
            assert_eq!(plan.alpha_ppm, PPM);
            assert_eq!(plan.size, 60);
        }
        other => panic!("expected a frame, got {:?}", other),
    }
    match f.tick(1016, Some((70, 80))) {
        OverlayCommand::Draw { x, y, .. } => assert_eq!((x, y), (70, 80)),
        other => panic!("expected a frame, got {:?}", other),
    }
    assert_eq!(f.session().unwrap().x, 70);
    assert!(matches!(f.tick(5999, None), OverlayCommand::Draw { .. }));
    assert_eq!(f.tick(6000, None), OverlayCommand::Hide);
    assert!(!f.is_active());
}

#[test]
fn retrigger_replaces_the_running_session() {
    let mut f = CursorFinderService::new(Preferences::default());
    f.show_highlight_at(0, 0, 1000);
    let first = f.tick(1000, None);
    f.tick(3000, None);
    let (_, _, s) = shown_at(f.show_highlight_at(0, 0, 4000));
    assert_eq!(s.start_ms, 4000);
    assert_eq!(f.tick(4000, None), first);
    assert!(matches!(f.tick(8999, None), OverlayCommand::Draw { .. }));
    assert_eq!(f.tick(9000, None), OverlayCommand::Hide);
}

#[test]
fn hide_ends_the_session() {
    let mut f = CursorFinderService::new(Preferences::default());
    f.find_cursor(0);
    assert_eq!(f.hide_highlight(), OverlayCommand::Hide);
    assert!(!f.is_active());
    assert_eq!(f.update_cursor_position(1, 2), OverlayCommand::Nothing);
}

#[test]
fn shake_to_highlight_end_to_end() {
    let prefs = Preferences::default();
    assert!(prefs.enabled && prefs.shake_enabled && prefs.shake_sensitivity_milli == 500);
    let mut detector = ShakeDetector::new(prefs.shake_sensitivity_milli as i64);
    detector.start();
    let mut finder = CursorFinderService::new(prefs);
    let mut command = OverlayCommand::Nothing;
    for (i, x) in [400, 500, 400, 500, 400, 500].iter().enumerate() {
        let now = 40 * i as u64;
        finder.update_cursor_position(*x, 300);
        if detector.record_position(*x, 300, now) {
            command = finder.on_shake(now);
        }
    }
    let (x, y, session) = shown_at(command);
    assert_eq!((x, y), (500, 300));
    assert_eq!(session.start_ms, 200);
    assert!(matches!(finder.tick(216, None), OverlayCommand::Draw { x: 500, y: 300, .. }));
}
