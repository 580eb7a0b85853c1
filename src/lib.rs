//! Decision and timing engine of a cursor highlighter: shake-gesture
//! recognition, the animation clock, transition-log tailing and the
//! highlight state machine.

pub mod animation;
pub mod display;
pub mod finder;
pub mod preferences;
pub mod shake;
pub mod style;
pub mod transitions;
pub mod visual;

pub use animation::{
    animation_visuals, argb_pixel, calculate_animation_progress, highlight_plan, is_reversing,
    DrawPlan, GlowPlan, VisualParams,
};
pub use display::{Display, DisplayManager, MonitorGeometry};
pub use finder::{AnimationSession, CursorFinderService, FinderError, OverlayCommand};
pub use preferences::Preferences;
pub use shake::{PositionSample, ShakeDetector};
pub use style::{
    AnimationStyle, AnimationType, BorderStyle, Color, CursorStyle, Easing, Shape, PPM,
};
pub use transitions::{
    extract_screen_name, find_synergy_log, log_candidates, parse_transition_event,
    transitions_in_bytes, CursorTransition, LogCandidate, LogRoot, MonitorError, SynergyMonitor,
    TransitionType,
};
pub use visual::{
    find_argb_visual, AllowedDepth, PictDepth, PictFormatInfo, PictScreen, PictVisual, VisualError,
};
