use cursorhome::{
    animation_visuals, argb_pixel, calculate_animation_progress, highlight_plan, is_reversing,
    AnimationStyle, AnimationType, BorderStyle, Color, CursorStyle, Easing, Preferences, Shape,
    VisualParams, PPM,
};

fn linear_style(duration_ms: u64, auto_reverse: bool, repeat_count: u32) -> AnimationStyle {
    AnimationStyle {
        animation_type: AnimationType::Pulse,
        duration_ms,
        easing: Easing::Linear,
        repeat_count,
        auto_reverse,
    }
}

#[test]
fn shape_all_lists_every_shape_in_order() {
    assert_eq!(
        Shape::all(),
        &[Shape::Circle, Shape::Ring, Shape::Crosshair, Shape::Spotlight]
    );
}

#[test]
fn shape_display_names() {
    assert_eq!(Shape::Circle.display_name(), "Filled Circle");
    assert_eq!(Shape::Ring.display_name(), "Ring");
    assert_eq!(Shape::Crosshair.display_name(), "Crosshair");
    assert_eq!(Shape::Spotlight.display_name(), "Spotlight");
}

#[test]
fn animation_type_all_and_names() {
    let all = AnimationType::all();
    assert_eq!(all.len(), 5);
    let names: Vec<&str> = all.iter().map(|t| t.display_name()).collect();
    assert_eq!(names, vec!["None", "Pulse", "Ripple", "Fade", "Scale"]);
}

#[test]
fn easing_boundaries_for_every_kind() {
    for e in [Easing::Linear, Easing::EaseIn, Easing::EaseOut, Easing::EaseInOut] {
        assert_eq!(e.apply(0), 0);
        assert_eq!(e.apply(PPM), PPM);
    }
}

#[test]
fn easing_values_at_known_points() {
    assert_eq!(Easing::Linear.apply(300_000), 300_000);
    assert_eq!(Easing::EaseIn.apply(500_000), 250_000);
    assert_eq!(Easing::EaseOut.apply(500_000), 750_000);
    assert_eq!(Easing::EaseInOut.apply(250_000), 125_000);
    assert_eq!(Easing::EaseInOut.apply(500_000), 500_000);
    assert_eq!(Easing::EaseInOut.apply(750_000), 875_000);
}

#[test]
fn defaults_match_the_shipped_settings() {
    let c = CursorStyle::default();
    assert_eq!(c.shape, Shape::Ring);
    assert_eq!(c.size, 60);
    assert_eq!(c.color, Color::new(255, 149, 0, 255));
    assert_eq!(c.border_weight, 4);
    assert_eq!(c.border_style, BorderStyle::Solid);
    assert!(c.glow_enabled);
    let a = AnimationStyle::default();
    assert_eq!(a.animation_type, AnimationType::Pulse);
    assert_eq!(a.duration_ms, 800);
    assert_eq!(a.easing, Easing::EaseInOut);
    assert_eq!(a.repeat_count, 3);
    assert!(a.auto_reverse);
    let p = Preferences::default();
    assert!(p.enabled && p.shake_enabled);
    assert_eq!(p.highlight_duration_ms, 5000);
    assert_eq!(p.shake_sensitivity_milli, 500);
}

#[test]
fn progress_stays_within_unit_range() {
    for easing in [Easing::Linear, Easing::EaseIn, Easing::EaseOut, Easing::EaseInOut] {
        for duration in [1u64, 3, 800, 1000] {
            for reverse in [false, true] {
                let style = AnimationStyle { easing, ..linear_style(duration, reverse, 0) };
                for elapsed in 0..3000u64 {
                    let p = calculate_animation_progress(elapsed, &style);
                    assert!(p <= PPM);
                }
            }
        }
    }
}

#[test]
fn linear_progress_within_a_cycle() {
    let style = linear_style(1000, false, 0);
    assert_eq!(calculate_animation_progress(0, &style), 0);
    assert_eq!(calculate_animation_progress(250, &style), 250_000);
    assert_eq!(calculate_animation_progress(1250, &style), 250_000);
}

#[test]
fn reversed_cycle_runs_backwards() {
    let style = linear_style(1000, true, 0);
    assert!(!is_reversing(250, &style));
    assert!(is_reversing(1250, &style));
    assert_eq!(calculate_animation_progress(1250, &style), 750_000);
    assert_eq!(calculate_animation_progress(1000, &style), PPM);
}

#[test]
fn auto_reverse_mirrors_around_the_cycle_end() {
    let style = AnimationStyle::default();
    assert_eq!(calculate_animation_progress(900, &style), 968_750);
    assert_eq!(calculate_animation_progress(700, &style), 968_750);
    for x in 1..800u64 {
        assert_eq!(
            calculate_animation_progress(800 + x, &style),
            calculate_animation_progress(800 - x, &style)
        );
    }
    let odd = linear_style(3, true, 0);
    assert_eq!(calculate_animation_progress(4, &odd), calculate_animation_progress(2, &odd));
}

#[test]
fn zero_duration_means_full_progress() {
    let style = linear_style(0, true, 0);
    assert_eq!(calculate_animation_progress(0, &style), PPM);
    assert_eq!(calculate_animation_progress(12345, &style), PPM);
}

#[test]
fn finished_repeats_hold_full_progress() {
    let style = AnimationStyle::default();
    assert_eq!(calculate_animation_progress(0, &style), 0);
    assert_eq!(calculate_animation_progress(2400, &style), PPM);
    assert_eq!(calculate_animation_progress(5000, &style), PPM);
}

#[test]
fn visuals_for_each_animation_type() {
    let v = animation_visuals(AnimationType::Pulse, 0, 255);
    assert_eq!(v, VisualParams { alpha_ppm: PPM, scale_ppm: PPM });
    assert_eq!(animation_visuals(AnimationType::Pulse, PPM, 255).alpha_ppm, 300_000);
    assert_eq!(animation_visuals(AnimationType::Fade, PPM, 255).alpha_ppm, 300_000);
    assert_eq!(animation_visuals(AnimationType::Fade, 0, 255).alpha_ppm, PPM);
    let s = animation_visuals(AnimationType::Scale, 0, 255);
    assert_eq!(s, VisualParams { alpha_ppm: PPM, scale_ppm: 1_200_000 });
    assert_eq!(animation_visuals(AnimationType::Scale, PPM, 255).scale_ppm, 800_000);
    let r = animation_visuals(AnimationType::Ripple, 500_000, 255);
    assert_eq!(r, VisualParams { alpha_ppm: 500_000, scale_ppm: 1_250_000 });
    let n = animation_visuals(AnimationType::Steady, 700_000, 128);
    assert_eq!(n, VisualParams { alpha_ppm: 501_960, scale_ppm: PPM });
}

#[test]
fn argb_pixel_packs_bytes() {
    let orange = Color::new(255, 149, 0, 255);
    assert_eq!(argb_pixel(orange, PPM), 0xFFFF_9500);
    assert_eq!(argb_pixel(orange, 500_000), 0x7FFF_9500);
    assert_eq!(argb_pixel(orange, 0), 0x00FF_9500);
}

#[test]
fn highlight_plan_scales_and_glows() {
    let style = CursorStyle::default();
    let plan = highlight_plan(&style, VisualParams { alpha_ppm: PPM, scale_ppm: PPM });
    assert_eq!(plan.shape, Shape::Ring);
    assert_eq!(plan.size, 60);
    assert_eq!(plan.line_width, 4);
    let glow = plan.glow.unwrap();
    assert_eq!(glow.alpha_ppm, 250_000);
    assert_eq!(glow.diameter, 80);
    assert_eq!(plan.pixel, 0xFFFF_9500);
    let rippled = highlight_plan(&style, VisualParams { alpha_ppm: 500_000, scale_ppm: 1_250_000 });
    assert_eq!(rippled.size, 75);
    let no_glow = CursorStyle { glow_enabled: false, ..style };
    assert!(highlight_plan(&no_glow, VisualParams { alpha_ppm: PPM, scale_ppm: PPM }).glow.is_none());
}
