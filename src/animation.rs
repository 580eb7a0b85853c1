//! The animation clock: progress of a highlight session as a function of
//! elapsed time, and the visual parameters derived from it.
use vstd::prelude::*;
use crate::style::{eased, lemma_eased_in_range, AnimationStyle, AnimationType, Color, CursorStyle, Shape, PPM};

verus! {

/// Index of the animation cycle that `elapsed` milliseconds fall in.
pub open spec fn cycle_of(style: AnimationStyle, elapsed: int) -> int {
    elapsed / (style.duration_ms as int)
}

/// Whether the cycle that `elapsed` falls in runs backwards.
pub open spec fn reversing_at(style: AnimationStyle, elapsed: int) -> bool {
    style.duration_ms > 0 && style.auto_reverse && cycle_of(style, elapsed) % 2 == 1
}

/// Linear progress within the current cycle, in parts per million, rounded down:
/// `(elapsed mod duration) / duration`, or one minus that in a reversed cycle.
pub open spec fn linear_progress_at(style: AnimationStyle, elapsed: int) -> int {
    let d = style.duration_ms as int;
    let r = elapsed % d;
    let pos = if reversing_at(style, elapsed) { d - r } else { r };
    pos * PPM / d
}

/// Progress of the animation `elapsed` milliseconds into a session, in parts per
/// million: 1 when the cycle length is 0 or once the repeats are used up, else
/// the eased linear progress.
pub open spec fn progress_at(style: AnimationStyle, elapsed: int) -> int {
    if style.duration_ms == 0 {
        PPM as int
    } else if style.repeat_count > 0 && cycle_of(style, elapsed) >= style.repeat_count {
        PPM as int
    } else {
        eased(style.easing, linear_progress_at(style, elapsed))
    }
}

proof fn lemma_linear_progress_in_range(style: AnimationStyle, elapsed: int)
    requires
        elapsed >= 0,
        style.duration_ms > 0,
    ensures
        0 <= linear_progress_at(style, elapsed) <= PPM,
{
    let d = style.duration_ms as int;
    let r = elapsed % d;
    vstd::arithmetic::div_mod::lemma_mod_bound(elapsed, d);
    let pos = if reversing_at(style, elapsed) { d - r } else { r };
    assert(0 <= pos <= d);
    assert(0 <= pos * PPM <= d * PPM) by (nonlinear_arith)
        requires
            0 <= pos <= d,
    ;
    vstd::arithmetic::div_mod::lemma_div_is_ordered(pos * PPM, d * PPM, d);
    vstd::arithmetic::div_mod::lemma_div_multiples_vanish(PPM as int, d);
    vstd::arithmetic::div_mod::lemma_div_pos_is_pos(pos * PPM, d);
}

/// For every elapsed time and cycle length, progress stays within `[0, 1]`.
pub proof fn lemma_progress_in_range(style: AnimationStyle, elapsed: int)
    requires
        elapsed >= 0,
    ensures
        0 <= progress_at(style, elapsed) <= PPM,
{
    if style.duration_ms > 0 {
        lemma_linear_progress_in_range(style, elapsed);
        lemma_eased_in_range(style.easing, linear_progress_at(style, elapsed));
    }
}

/// With auto-reverse, the second cycle mirrors the first: progress at
/// `duration + x` equals progress at `duration - x` for `0 < x < duration`.
/// A single repeat ends the animation at `duration`, so the law is stated for
/// the other repeat counts.
pub proof fn lemma_auto_reverse_mirrors(style: AnimationStyle, x: int)
    requires
        style.auto_reverse,
        0 < x < style.duration_ms,
        style.repeat_count != 1,
    ensures
        progress_at(style, style.duration_ms + x) == progress_at(style, style.duration_ms - x),
{
    let d = style.duration_ms as int;
    vstd::arithmetic::div_mod::lemma_fundamental_div_mod_converse(d + x, d, 1, x);
    vstd::arithmetic::div_mod::lemma_fundamental_div_mod_converse(d - x, d, 0, d - x);
    assert(cycle_of(style, d + x) == 1);
    assert(cycle_of(style, d - x) == 0);
    assert(linear_progress_at(style, d + x) == linear_progress_at(style, d - x));
}

/// Progress of the animation, in parts per million, `elapsed_ms` into a session.
pub fn calculate_animation_progress(elapsed_ms: u64, style: &AnimationStyle) -> (r: u64)
    ensures
        r == progress_at(*style, elapsed_ms as int),
        r <= PPM,
{
    proof {
        lemma_progress_in_range(*style, elapsed_ms as int);
    }
    if style.duration_ms == 0 {
        return PPM;
    }
    let d = style.duration_ms;
    let cycle = elapsed_ms / d;
    if style.repeat_count > 0 && cycle >= style.repeat_count as u64 {
        return PPM;
    }
    let r = elapsed_ms % d;
    let pos = if style.auto_reverse && cycle % 2 == 1 {
        d - r
    } else {
        r
    };
    proof {
        lemma_linear_progress_in_range(*style, elapsed_ms as int);
    }
    let linear = ((pos as u128) * (PPM as u128) / (d as u128)) as u64;
    style.easing.apply(linear)
}

/// Whether the cycle that `elapsed_ms` falls in runs backwards.
pub fn is_reversing(elapsed_ms: u64, style: &AnimationStyle) -> (r: bool)
    ensures
        r == reversing_at(*style, elapsed_ms as int),
{
    style.duration_ms > 0 && style.auto_reverse && (elapsed_ms / style.duration_ms) % 2 == 1
}

/// Opacity and size factors of one frame, in parts per million.
#[derive(Debug, Clone, Copy, PartialEq, Eq, Structural)]
pub struct VisualParams {
    pub alpha_ppm: u64,
    pub scale_ppm: u64,
}

/// Opacity of a frame at `progress`, for a colour of opacity `a` (0..=255), in
/// parts per million, rounded down: the colour's opacity scaled by `1` (steady,
/// scale), `0.3 + 0.7 (1 - p)` (pulse), `1 - 0.7 p` (fade) or `1 - p` (ripple).
pub open spec fn alpha_for(kind: AnimationType, progress: int, a: int) -> int {
    let one = PPM as int;
    match kind {
        AnimationType::Steady => a * one / 255,
        AnimationType::Pulse => (3 * one + 7 * (one - progress)) * a / 2550,
        AnimationType::Fade => (10 * one - 7 * progress) * a / 2550,
        AnimationType::Scale => a * one / 255,
        AnimationType::Ripple => (one - progress) * a / 255,
    }
}

/// Size factor of a frame at `progress`, in parts per million, rounded down:
/// `0.8 + 0.4 (1 - p)` (scale), `1 + 0.5 p` (ripple), `1` otherwise.
pub open spec fn scale_for(kind: AnimationType, progress: int) -> int {
    let one = PPM as int;
    match kind {
        AnimationType::Scale => (8 * one + 4 * (one - progress)) / 10,
        AnimationType::Ripple => one + progress / 2,
        _ => one,
    }
}

proof fn lemma_scaled_fraction_bounded(f: int, a: int, den: int, bound: int)
    requires
        0 <= f <= bound,
        0 <= a <= 255,
        den == 255 * (bound / PPM as int),
        bound % (PPM as int) == 0,
        bound > 0,
    ensures
        0 <= f * a / den <= PPM,
{
    let k = bound / PPM as int;
    assert(bound == k * PPM) by {
        vstd::arithmetic::div_mod::lemma_fundamental_div_mod(bound, PPM as int);
    }
    assert(k > 0) by (nonlinear_arith)
        requires
            bound == k * PPM,
            bound > 0,
    ;
    assert(0 <= f * a <= bound * 255) by (nonlinear_arith)
        requires
            0 <= f <= bound,
            0 <= a <= 255,
    ;
    assert(bound * 255 == den * PPM) by (nonlinear_arith)
        requires
            bound == k * PPM,
            den == 255 * k,
    ;
    vstd::arithmetic::div_mod::lemma_div_is_ordered(f * a, den * PPM, den);
    vstd::arithmetic::div_mod::lemma_div_multiples_vanish(PPM as int, den);
    vstd::arithmetic::div_mod::lemma_div_pos_is_pos(f * a, den);
}

/// Visual parameters of a frame stay within range: opacity at most 1, size
/// factor between 0.8 and 1.5.
pub proof fn lemma_visuals_in_range(kind: AnimationType, progress: int, a: int)
    requires
        0 <= progress <= PPM,
        0 <= a <= 255,
    ensures
        0 <= alpha_for(kind, progress, a) <= PPM,
        PPM * 8 / 10 <= scale_for(kind, progress) <= PPM * 3 / 2,
{
    let one = PPM as int;
    match kind {
        AnimationType::Pulse => {
            lemma_scaled_fraction_bounded(3 * one + 7 * (one - progress), a, 2550, 10 * one);
        },
        AnimationType::Fade => {
            lemma_scaled_fraction_bounded(10 * one - 7 * progress, a, 2550, 10 * one);
        },
        AnimationType::Ripple => {
            lemma_scaled_fraction_bounded(one - progress, a, 255, one);
        },
        _ => {
            lemma_scaled_fraction_bounded(one, a, 255, one);
        },
    }
}

/// Opacity and size factor of a frame at `progress` (parts per million) for a
/// colour of opacity `color_alpha`.
pub fn animation_visuals(kind: AnimationType, progress: u64, color_alpha: u8) -> (r: VisualParams)
    requires
        progress <= PPM,
    ensures
        r.alpha_ppm == alpha_for(kind, progress as int, color_alpha as int),
        r.scale_ppm == scale_for(kind, progress as int),
        r.alpha_ppm <= PPM,
        r.scale_ppm <= PPM * 3 / 2,
{
    proof {
        lemma_visuals_in_range(kind, progress as int, color_alpha as int);
    }
    let a = color_alpha as u64;
    match kind {
        AnimationType::Steady => VisualParams { alpha_ppm: a * PPM / 255, scale_ppm: PPM },
        AnimationType::Pulse => VisualParams {
            alpha_ppm: (3 * PPM + 7 * (PPM - progress)) * a / 2550,
            scale_ppm: PPM,
        },
        AnimationType::Fade => VisualParams {
            alpha_ppm: (10 * PPM - 7 * progress) * a / 2550,
            scale_ppm: PPM,
        },
        AnimationType::Scale => VisualParams {
            alpha_ppm: a * PPM / 255,
            scale_ppm: (8 * PPM + 4 * (PPM - progress)) / 10,
        },
        AnimationType::Ripple => VisualParams {
            alpha_ppm: (PPM - progress) * a / 255,
            scale_ppm: PPM + progress / 2,
        },
    }
}

/// A 32-bit ARGB pixel value: opacity, red, green, blue, one byte each from
/// the most significant down.
pub open spec fn argb_of(a: int, r: int, g: int, b: int) -> int {
    a * 0x1000000 + r * 0x10000 + g * 0x100 + b
}

/// The pixel value of `color` drawn at opacity `alpha_ppm` (the opacity byte
/// is `alpha_ppm * 255`, rounded down).
pub fn argb_pixel(color: Color, alpha_ppm: u64) -> (p: u32)
    requires
        alpha_ppm <= PPM,
    ensures
        p == argb_of(alpha_ppm * 255 / PPM as int, color.r as int, color.g as int, color.b as int),
{
    assert(alpha_ppm * 255 <= PPM * 255) by (nonlinear_arith)
        requires
            alpha_ppm <= PPM,
    ;
    proof {
        vstd::arithmetic::div_mod::lemma_div_is_ordered(alpha_ppm * 255, PPM * 255, PPM as int);
        vstd::arithmetic::div_mod::lemma_div_multiples_vanish(255, PPM as int);
    }
    let a: u32 = (alpha_ppm * 255 / PPM) as u32;
    let r: u32 = color.r as u32;
    let g: u32 = color.g as u32;
    let b: u32 = color.b as u32;
    assert((a << 24u32) | (r << 16u32) | (g << 8u32) | b == a * 0x1000000 + r * 0x10000 + g * 0x100 + b)
        by (bit_vector)
        requires
            a < 256,
            r < 256,
            g < 256,
            b < 256,
    ;
    (a << 24u32) | (r << 16u32) | (g << 8u32) | b
}

/// The glow drawn behind the shape: its opacity and diameter.
#[derive(Debug, Clone, Copy, PartialEq, Eq, Structural)]
pub struct GlowPlan {
    pub alpha_ppm: u64,
    pub diameter: u64,
}

/// Everything a backend needs to draw one frame of the highlight.
#[derive(Debug, Clone, Copy, PartialEq, Eq, Structural)]
pub struct DrawPlan {
    pub shape: Shape,
    /// Diameter of the shape in pixels.
    pub size: u64,
    pub alpha_ppm: u64,
    pub line_width: u32,
    pub glow: Option<GlowPlan>,
    /// The colour at the frame's opacity, as an ARGB pixel.
    pub pixel: u32,
}

/// The frame of `style` at visual parameters `v`: the shape scaled by
/// `v.scale_ppm`, and a glow, when enabled, of half the frame's opacity times
/// the glow intensity and as wide as the shape plus twice the glow radius.
pub open spec fn plan_for(style: CursorStyle, v: VisualParams) -> DrawPlan {
    let size = (style.size * v.scale_ppm / PPM as int) as u64;
    DrawPlan {
        shape: style.shape,
        size,
        alpha_ppm: v.alpha_ppm,
        line_width: style.border_weight,
        glow: if style.glow_enabled && style.glow_intensity_milli > 0 {
            Some(
                GlowPlan {
                    alpha_ppm: (v.alpha_ppm * style.glow_intensity_milli / 2000) as u64,
                    diameter: (size + 2 * style.glow_radius) as u64,
                },
            )
        } else {
            None
        },
        pixel: argb_of(
            v.alpha_ppm * 255 / PPM as int,
            style.color.r as int,
            style.color.g as int,
            style.color.b as int,
        ) as u32,
    }
}

/// Plans one frame of `style` at visual parameters `v`.
pub fn highlight_plan(style: &CursorStyle, v: VisualParams) -> (p: DrawPlan)
    requires
        v.alpha_ppm <= PPM,
        v.scale_ppm <= PPM * 3 / 2,
    ensures
        p == plan_for(*style, v),
{
    assert(style.size * v.scale_ppm <= 0xffff_ffff * (PPM * 3 / 2)) by (nonlinear_arith)
        requires
            style.size <= 0xffff_ffff,
            v.scale_ppm <= PPM * 3 / 2,
    ;
    assert(v.alpha_ppm * style.glow_intensity_milli <= PPM * 0xffff_ffff) by (nonlinear_arith)
        requires
            style.glow_intensity_milli <= 0xffff_ffff,
            v.alpha_ppm <= PPM,
    ;
    let size = (style.size as u64) * v.scale_ppm / PPM;
    assert(size <= 0xffff_ffff * 2) by {
        vstd::arithmetic::div_mod::lemma_div_is_ordered(
            style.size * v.scale_ppm,
            0xffff_ffff * (PPM * 2) as int,
            PPM as int,
        );
        vstd::arithmetic::div_mod::lemma_div_multiples_vanish(0xffff_ffff * 2int, PPM as int);
    }
    let glow = if style.glow_enabled && style.glow_intensity_milli > 0 {
        Some(
            GlowPlan {
                alpha_ppm: v.alpha_ppm * (style.glow_intensity_milli as u64) / 2000,
                diameter: size + 2 * (style.glow_radius as u64),
            },
        )
    } else {
        None
    };
    DrawPlan {
        shape: style.shape,
        size,
        alpha_ppm: v.alpha_ppm,
        line_width: style.border_weight,
        glow,
        pixel: argb_pixel(style.color, v.alpha_ppm),
    }
}

} // verus!
