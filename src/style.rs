//! Style value objects: shapes, colours, animation kinds and easing curves.
//!
//! Fractions of one are carried as parts per million (`PPM` stands for 1.0),
//! durations as milliseconds and lengths as whole pixels.
use vstd::prelude::*;

verus! {

/// The value that stands for 1.0 in a fraction written in parts per million.
pub const PPM: u64 = 1_000_000;

/// Shape of the cursor highlight.
#[derive(Debug, Clone, Copy, PartialEq, Eq, Structural)]
pub enum Shape {
    Circle,
    Ring,
    Crosshair,
    Spotlight,
}

impl Shape {
    /// Every shape, in the order a chooser lists them.
    pub fn all() -> (r: &'static [Shape])
        ensures
            r@ == seq![Shape::Circle, Shape::Ring, Shape::Crosshair, Shape::Spotlight],
    {
        &[Shape::Circle, Shape::Ring, Shape::Crosshair, Shape::Spotlight]
    }

    pub fn display_name(&self) -> (r: &'static str)
        ensures
            r@ == match *self {
                Shape::Circle => "Filled Circle"@,
                Shape::Ring => "Ring"@,
                Shape::Crosshair => "Crosshair"@,
                Shape::Spotlight => "Spotlight"@,
            },
    {
        match self {
            Shape::Circle => "Filled Circle",
            Shape::Ring => "Ring",
            Shape::Crosshair => "Crosshair",
            Shape::Spotlight => "Spotlight",
        }
    }
}

/// Colour of the highlight: red, green, blue and opacity, each of 0..=255
/// (an opacity of 255 is fully opaque).
#[derive(Debug, Clone, Copy, PartialEq, Eq, Structural)]
pub struct Color {
    pub r: u8,
    pub g: u8,
    pub b: u8,
    pub a: u8,
}

impl Default for Color {
    /// Opaque orange.
    fn default() -> (c: Color)
        ensures
            c == (Color { r: 255, g: 149, b: 0, a: 255 }),
    {
        Color { r: 255, g: 149, b: 0, a: 255 }
    }
}

impl Color {
    pub fn new(r: u8, g: u8, b: u8, a: u8) -> (c: Color)
        ensures
            c == (Color { r, g, b, a }),
    {
        Color { r, g, b, a }
    }
}

/// Border style for ring and crosshair shapes.
#[derive(Debug, Clone, Copy, PartialEq, Eq, Structural)]
pub enum BorderStyle {
    Solid,
    Dashed,
    Dotted,
}

/// How the highlight looks: lengths in pixels, glow intensity in thousandths.
#[derive(Debug, Clone, Copy, PartialEq, Eq, Structural)]
pub struct CursorStyle {
    pub shape: Shape,
    pub size: u32,
    pub color: Color,
    pub border_weight: u32,
    pub border_style: BorderStyle,
    pub glow_enabled: bool,
    pub glow_intensity_milli: u32,
    pub glow_radius: u32,
}

impl Default for CursorStyle {
    /// A 60 px orange ring with a soft glow.
    fn default() -> (s: CursorStyle)
        ensures
            s == (CursorStyle {
                shape: Shape::Ring,
                size: 60,
                color: Color { r: 255, g: 149, b: 0, a: 255 },
                border_weight: 4,
                border_style: BorderStyle::Solid,
                glow_enabled: true,
                glow_intensity_milli: 500,
                glow_radius: 10,
            }),
    {
        CursorStyle {
            shape: Shape::Ring,
            size: 60,
            color: Color::default(),
            border_weight: 4,
            border_style: BorderStyle::Solid,
            glow_enabled: true,
            glow_intensity_milli: 500,
            glow_radius: 10,
        }
    }
}

/// How the highlight's look changes with animation progress.
#[derive(Debug, Clone, Copy, PartialEq, Eq, Structural)]
pub enum AnimationType {
    Steady,
    Pulse,
    Ripple,
    Fade,
    Scale,
}

impl AnimationType {
    /// Every animation type, in the order a chooser lists them.
    pub fn all() -> (r: &'static [AnimationType])
        ensures
            r@ == seq![
                AnimationType::Steady,
                AnimationType::Pulse,
                AnimationType::Ripple,
                AnimationType::Fade,
                AnimationType::Scale,
            ],
    {
        &[
            AnimationType::Steady,
            AnimationType::Pulse,
            AnimationType::Ripple,
            AnimationType::Fade,
            AnimationType::Scale,
        ]
    }

    pub fn display_name(&self) -> (r: &'static str)
        ensures
            r@ == match *self {
                AnimationType::Steady => "None"@,
                AnimationType::Pulse => "Pulse"@,
                AnimationType::Ripple => "Ripple"@,
                AnimationType::Fade => "Fade"@,
                AnimationType::Scale => "Scale"@,
            },
    {
        match self {
            AnimationType::Steady => "None",
            AnimationType::Pulse => "Pulse",
            AnimationType::Ripple => "Ripple",
            AnimationType::Fade => "Fade",
            AnimationType::Scale => "Scale",
        }
    }
}

/// Easing curve that reshapes linear progress.
#[derive(Debug, Clone, Copy, PartialEq, Eq, Structural)]
pub enum Easing {
    Linear,
    EaseIn,
    EaseOut,
    EaseInOut,
}

/// The eased value of progress `t` (parts per million), rounded down:
/// `t`, `t²`, `1 - (1 - t)²`, and `2t²` below one half, `1 - (2 - 2t)² / 2` from there on.
pub open spec fn eased(e: Easing, t: int) -> int {
    let one = PPM as int;
    match e {
        Easing::Linear => t,
        Easing::EaseIn => t * t / one,
        Easing::EaseOut => one - (one - t) * (one - t) / one,
        Easing::EaseInOut => if 2 * t < one {
            2 * t * t / one
        } else {
            one - (2 * one - 2 * t) * (2 * one - 2 * t) / (2 * one)
        },
    }
}

proof fn lemma_square_fraction_bounded(a: int, d: int)
    requires
        0 <= a <= d,
        d > 0,
    ensures
        0 <= a * a / d <= a,
{
    assert(0 <= a * a) by (nonlinear_arith)
        requires
            0 <= a,
    ;
    assert(a * a <= d * a) by (nonlinear_arith)
        requires
            0 <= a <= d,
    ;
    vstd::arithmetic::div_mod::lemma_div_is_ordered(a * a, d * a, d);
    vstd::arithmetic::div_mod::lemma_div_multiples_vanish(a, d);
    vstd::arithmetic::div_mod::lemma_div_pos_is_pos(a * a, d);
}

/// Easing keeps progress within `[0, 1]`.
pub proof fn lemma_eased_in_range(e: Easing, t: int)
    requires
        0 <= t <= PPM,
    ensures
        0 <= eased(e, t) <= PPM,
{
    let one = PPM as int;
    lemma_square_fraction_bounded(t, one);
    lemma_square_fraction_bounded(one - t, one);
    if 2 * t < one {
        assert(2 * t * t == (2 * t) * t) by (nonlinear_arith);
        assert(0 <= 2 * t * t <= one * t) by (nonlinear_arith)
            requires
                0 <= t,
                2 * t < one,
        ;
        assert(one * t == t * one) by (nonlinear_arith);
        vstd::arithmetic::div_mod::lemma_div_is_ordered(2 * t * t, one * t, one);
        vstd::arithmetic::div_mod::lemma_div_multiples_vanish(t, one);
        vstd::arithmetic::div_mod::lemma_div_pos_is_pos(2 * t * t, one);
    } else {
        lemma_square_fraction_bounded(2 * one - 2 * t, 2 * one);
    }
}

/// Each curve starts at 0 and ends at 1.
pub proof fn lemma_easing_boundaries(e: Easing)
    ensures
        eased(e, 0) == 0,
        eased(e, PPM as int) == PPM,
{
    let one = PPM as int;
    assert(one * one / one == one) by {
        vstd::arithmetic::div_mod::lemma_div_multiples_vanish(one, one);
    }
    assert((2 * one) * (2 * one) / (2 * one) == 2 * one) by {
        vstd::arithmetic::div_mod::lemma_div_multiples_vanish(2 * one, 2 * one);
    }
}

impl Easing {
    /// Applies the curve to progress `t` (parts per million).
    pub fn apply(&self, t: u64) -> (r: u64)
        requires
            t <= PPM,
        ensures
            r == eased(*self, t as int),
            r <= PPM,
    {
        proof {
            lemma_eased_in_range(*self, t as int);
        }
        match self {
            Easing::Linear => t,
            Easing::EaseIn => t * t / PPM,
            Easing::EaseOut => PPM - (PPM - t) * (PPM - t) / PPM,
            Easing::EaseInOut => {
                if 2 * t < PPM {
                    2 * t * t / PPM
                } else {
                    PPM - (2 * PPM - 2 * t) * (2 * PPM - 2 * t) / (2 * PPM)
                }
            },
        }
    }
}

/// How the animation runs: one cycle lasts `duration_ms`; a `repeat_count`
/// of 0 repeats without end.
#[derive(Debug, Clone, Copy, PartialEq, Eq, Structural)]
pub struct AnimationStyle {
    pub animation_type: AnimationType,
    pub duration_ms: u64,
    pub easing: Easing,
    pub repeat_count: u32,
    pub auto_reverse: bool,
}

impl Default for AnimationStyle {
    /// A pulse of 800 ms cycles, eased in and out, three times, reversing.
    fn default() -> (s: AnimationStyle)
        ensures
            s == (AnimationStyle {
                animation_type: AnimationType::Pulse,
                duration_ms: 800,
                easing: Easing::EaseInOut,
                repeat_count: 3,
                auto_reverse: true,
            }),
    {
        AnimationStyle {
            animation_type: AnimationType::Pulse,
            duration_ms: 800,
            easing: Easing::EaseInOut,
            repeat_count: 3,
            auto_reverse: true,
        }
    }
}

} // verus!
