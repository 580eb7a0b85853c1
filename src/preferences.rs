//! The user's settings, as one value handed to the components that read it.
use vstd::prelude::*;
use crate::style::{AnimationStyle, AnimationType, BorderStyle, Color, CursorStyle, Easing, Shape};

verus! {

/// The user's settings. Durations are in milliseconds, the shake sensitivity
/// in thousandths (0 least, 1000 most sensitive), the magnifier zoom in percent.
#[derive(Debug, Clone, Copy, PartialEq, Eq, Structural)]
pub struct Preferences {
    pub enabled: bool,
    pub cursor_style: CursorStyle,
    pub animation_style: AnimationStyle,
    pub highlight_duration_ms: u64,
    pub shake_enabled: bool,
    pub shake_sensitivity_milli: u32,
    pub magnifier_zoom_percent: u32,
    pub magnifier_size: u32,
    pub launch_at_login: bool,
}

impl Default for Preferences {
    /// Enabled, the default styles, five-second highlights, shake detection on
    /// at middle sensitivity, a 2× magnifier of 150 px, no launch at login.
    fn default() -> (p: Preferences)
        ensures
            p == (Preferences {
                enabled: true,
                cursor_style: CursorStyle {
                    shape: Shape::Ring,
                    size: 60,
                    color: Color { r: 255, g: 149, b: 0, a: 255 },
                    border_weight: 4,
                    border_style: BorderStyle::Solid,
                    glow_enabled: true,
                    glow_intensity_milli: 500,
                    glow_radius: 10,
                },
                animation_style: AnimationStyle {
                    animation_type: AnimationType::Pulse,
                    duration_ms: 800,
                    easing: Easing::EaseInOut,
                    repeat_count: 3,
                    auto_reverse: true,
                },
                highlight_duration_ms: 5000,
                shake_enabled: true,
                shake_sensitivity_milli: 500,
                magnifier_zoom_percent: 200,
                magnifier_size: 150,
                launch_at_login: false,
            }),
    {
        Preferences {
            enabled: true,
            cursor_style: CursorStyle::default(),
            animation_style: AnimationStyle::default(),
            highlight_duration_ms: 5000,
            shake_enabled: true,
            shake_sensitivity_milli: 500,
            magnifier_zoom_percent: 200,
            magnifier_size: 150,
            launch_at_login: false,
        }
    }
}

} // verus!
