//! The highlight orchestrator: decides when a highlight starts, how each frame
//! looks and when it ends. A backend performs the `OverlayCommand`s it returns.
use vstd::prelude::*;
use crate::animation::{
    alpha_for, animation_visuals, calculate_animation_progress, highlight_plan, plan_for,
    progress_at, scale_for, DrawPlan, VisualParams,
};
use crate::display::{
    display_from, fits_i32, half, lemma_primary_index_in_range, primary_index, Display,
    DisplayManager, MonitorGeometry,
};
use crate::preferences::Preferences;
use crate::style::{AnimationStyle, CursorStyle};
use crate::transitions::{CursorTransition, TransitionType};

verus! {

/// Where the highlight goes when the pointer position was never seen and no
/// screen is known.
pub const FALLBACK_X: i32 = 960;

pub const FALLBACK_Y: i32 = 540;

/// One highlight on screen: what it looks like, when it started, how long it
/// stays and where it is.
#[derive(Debug, Clone, Copy, PartialEq, Eq, Structural)]
pub struct AnimationSession {
    pub cursor_style: CursorStyle,
    pub animation_style: AnimationStyle,
    pub start_ms: u64,
    pub duration_ms: u64,
    pub x: i32,
    pub y: i32,
}

/// What the rendering backend is to do.
#[derive(Debug, Clone, Copy, PartialEq, Eq, Structural)]
pub enum OverlayCommand {
    /// Leave the overlay as it is.
    Nothing,
    /// Show a new highlight at (`x`, `y`).
    Show { x: i32, y: i32, session: AnimationSession },
    /// Draw the current frame at (`x`, `y`).
    Draw { x: i32, y: i32, plan: DrawPlan },
    /// Move the highlight to (`x`, `y`).
    MoveTo { x: i32, y: i32 },
    /// Take the highlight off the screen.
    Hide,
}

/// Why an operation of the orchestrator failed.
#[derive(Debug, Clone, Copy, PartialEq, Eq, Structural)]
pub enum FinderError {
    /// No screen is known.
    NoPrimaryDisplay,
}

/// Milliseconds since `start_ms` at `now_ms`; 0 when `now_ms` is earlier.
pub open spec fn elapsed_since(start_ms: u64, now_ms: u64) -> int {
    if now_ms >= start_ms {
        now_ms - start_ms
    } else {
        0
    }
}

/// The session that a highlight at (`x`, `y`) started at `now_ms` runs.
pub open spec fn session_for(p: Preferences, x: i32, y: i32, now_ms: u64) -> AnimationSession {
    AnimationSession {
        cursor_style: p.cursor_style,
        animation_style: p.animation_style,
        start_ms: now_ms,
        duration_ms: p.highlight_duration_ms,
        x,
        y,
    }
}

/// The frame of session `s` at `elapsed` milliseconds.
pub open spec fn frame_of(s: AnimationSession, elapsed: int) -> DrawPlan {
    let progress = progress_at(s.animation_style, elapsed);
    plan_for(
        s.cursor_style,
        VisualParams {
            alpha_ppm: alpha_for(s.animation_style.animation_type, progress, s.cursor_style.color.a as int) as u64,
            scale_ppm: scale_for(s.animation_style.animation_type, progress) as u64,
        },
    )
}

/// The session and the command after a tick at `now_ms`: nothing without a
/// session; the end of the session once its duration has passed; else the
/// frame of the moment at the queried position, or where the session was.
pub open spec fn tick_outcome(
    session: Option<AnimationSession>,
    now_ms: u64,
    queried: Option<(i32, i32)>,
) -> (Option<AnimationSession>, OverlayCommand) {
    match session {
        None => (None, OverlayCommand::Nothing),
        Some(s) => {
            let elapsed = elapsed_since(s.start_ms, now_ms);
            if elapsed >= s.duration_ms {
                (None, OverlayCommand::Hide)
            } else {
                let (x, y) = match queried {
                    Some(p) => p,
                    None => (s.x, s.y),
                };
                (
                    Some(AnimationSession { x, y, ..s }),
                    OverlayCommand::Draw { x, y, plan: frame_of(s, elapsed) },
                )
            }
        },
    }
}

/// A trigger at `t_ms` replaces whatever session ran before with a fresh one:
/// `d_ms` later it is drawn at elapsed time `d_ms`, and it ends exactly when the
/// full highlight duration has passed since the trigger. Nothing of the
/// replaced session is left in it.
pub proof fn lemma_replaced_session_restarts(
    p: Preferences,
    x: i32,
    y: i32,
    t_ms: u64,
    d_ms: u64,
)
    requires
        t_ms + d_ms <= u64::MAX,
    ensures
        ({
            let s = session_for(p, x, y, t_ms);
            let now = (t_ms + d_ms) as u64;
            &&& elapsed_since(s.start_ms, t_ms) == 0
            &&& tick_outcome(Some(s), now, None) == if d_ms >= p.highlight_duration_ms {
                (None::<AnimationSession>, OverlayCommand::Hide)
            } else {
                (Some(s), OverlayCommand::Draw { x, y, plan: frame_of(s, d_ms as int) })
            }
        }),
{
}

/// What the orchestrator holds, as values.
pub struct FinderView {
    pub preferences: Preferences,
    pub displays: Seq<Display>,
    pub session: Option<AnimationSession>,
    pub last_known_position: Option<(i32, i32)>,
}

/// Finds and highlights the pointer. At most one highlight runs at a time; a
/// new trigger replaces the running one, which restarts at the new position.
pub struct CursorFinderService {
    preferences: Preferences,
    display_manager: DisplayManager,
    session: Option<AnimationSession>,
    last_known_position: Option<(i32, i32)>,
}

impl View for CursorFinderService {
    type V = FinderView;

    closed spec fn view(&self) -> FinderView {
        FinderView {
            preferences: self.preferences,
            displays: self.display_manager@,
            session: self.session,
            last_known_position: self.last_known_position,
        }
    }
}

/// Where the highlight goes when the pointer is to be found: the last position
/// seen, else the centre of the primary screen, else a fixed point.
pub open spec fn find_position(v: FinderView) -> (i32, i32) {
    match v.last_known_position {
        Some(p) => p,
        None => match primary_index(v.displays) {
            Some(k) => (
                (v.displays[k].x + half(v.displays[k].width as int)) as i32,
                (v.displays[k].y + half(v.displays[k].height as int)) as i32,
            ),
            None => (FALLBACK_X, FALLBACK_Y),
        },
    }
}

/// Every screen's centre can be written in 32-bit integers.
pub open spec fn centers_fit(ds: Seq<Display>) -> bool {
    forall|k: int|
        0 <= k < ds.len() ==> fits_i32(#[trigger] ds[k].x + half(ds[k].width as int)) && fits_i32(
            ds[k].y + half(ds[k].height as int),
        )
}

impl CursorFinderService {
    /// Well-formed: every screen has a centre within 32-bit range.
    pub open spec fn wf(&self) -> bool {
        centers_fit(self@.displays)
    }

    /// An idle orchestrator with the settings `preferences` and no screen known.
    pub fn new(preferences: Preferences) -> (s: CursorFinderService)
        ensures
            s.wf(),
            s@.preferences == preferences,
            s@.displays.len() == 0,
            s@.session is None,
            s@.last_known_position is None,
    {
        CursorFinderService {
            preferences,
            display_manager: DisplayManager::new(),
            session: None,
            last_known_position: None,
        }
    }

    /// Takes a fresh copy of the settings; a running highlight keeps its own.
    pub fn set_preferences(&mut self, preferences: Preferences)
        requires
            old(self).wf(),
        ensures
            final(self).wf(),
            final(self)@ == (FinderView { preferences, ..old(self)@ }),
    {
        self.preferences = preferences;
    }

    pub fn preferences(&self) -> (r: Preferences)
        ensures
            r == self@.preferences,
    {
        self.preferences
    }

    /// The running highlight, if any.
    pub fn session(&self) -> (r: Option<AnimationSession>)
        ensures
            r == self@.session,
    {
        self.session
    }

    pub fn is_active(&self) -> (r: bool)
        ensures
            r == self@.session is Some,
    {
        self.session.is_some()
    }

    /// Replaces the known screens by those the windowing layer reports.
    pub fn refresh_displays(&mut self, monitors: Vec<MonitorGeometry>)
        requires
            old(self).wf(),
            forall|i: int|
                0 <= i < monitors@.len() ==> fits_i32(#[trigger] monitors@[i].x + half(monitors@[i].width as int))
                    && fits_i32(monitors@[i].y + half(monitors@[i].height as int)),
        ensures
            final(self).wf(),
            final(self)@.displays.len() == monitors@.len(),
            forall|i: int|
                0 <= i < monitors@.len() ==> #[trigger] final(self)@.displays[i] == display_from(monitors@[i], i),
            final(self)@.preferences == old(self)@.preferences,
            final(self)@.session == old(self)@.session,
            final(self)@.last_known_position == old(self)@.last_known_position,
    {
        self.display_manager.refresh_displays(monitors);
        assert(centers_fit(self@.displays)) by {
            assert forall|k: int| 0 <= k < self@.displays.len() implies fits_i32(#[trigger] self@.displays[k].x + half(self@.displays[k].width as int)) && fits_i32(
            self@.displays[k].y + half(self@.displays[k].height as int)) by {
                assert(self@.displays[k] == display_from(monitors@[k], k));
            }
        }
    }

    /// Shows a new highlight at (`x`, `y`) starting at `now_ms`; a running one
    /// is replaced, and the new one starts from the beginning with the full
    /// duration of the current settings.
    pub fn show_highlight_at(&mut self, x: i32, y: i32, now_ms: u64) -> (c: OverlayCommand)
        requires
            old(self).wf(),
        ensures
            final(self).wf(),
            final(self)@ == (FinderView {
                session: Some(session_for(old(self)@.preferences, x, y, now_ms)),
                ..old(self)@
            }),
            c == (OverlayCommand::Show { x, y, session: session_for(old(self)@.preferences, x, y, now_ms) }),
    {
        let session = AnimationSession {
            cursor_style: self.preferences.cursor_style,
            animation_style: self.preferences.animation_style,
            start_ms: now_ms,
            duration_ms: self.preferences.highlight_duration_ms,
            x,
            y,
        };
        self.session = Some(session);
        OverlayCommand::Show { x, y, session }
    }

    /// Highlights the pointer where it is thought to be (see `find_position`),
    /// unless the feature is disabled.
    pub fn find_cursor(&mut self, now_ms: u64) -> (c: OverlayCommand)
        requires
            old(self).wf(),
        ensures
            final(self).wf(),
            !old(self)@.preferences.enabled ==> c == OverlayCommand::Nothing && final(self)@ == old(self)@,
            old(self)@.preferences.enabled ==> ({
                let (x, y) = find_position(old(self)@);
                &&& final(self)@ == (FinderView {
                    session: Some(session_for(old(self)@.preferences, x, y, now_ms)),
                    ..old(self)@
                })
                &&& c == (OverlayCommand::Show { x, y, session: session_for(old(self)@.preferences, x, y, now_ms) })
            }),
    {
        if !self.preferences.enabled {
            return OverlayCommand::Nothing;
        }
        proof {
            lemma_primary_index_in_range(self@.displays);
        }
        let position = match self.last_known_position {
            Some(p) => p,
            None => match self.display_manager.primary_display() {
                Some(display) => display.center(),
                None => (FALLBACK_X, FALLBACK_Y),
            },
        };
        self.show_highlight_at(position.0, position.1, now_ms)
    }

    /// Records where the pointer was seen; a running highlight follows it.
    pub fn update_cursor_position(&mut self, x: i32, y: i32) -> (c: OverlayCommand)
        requires
            old(self).wf(),
        ensures
            final(self).wf(),
            final(self)@.last_known_position == Some((x, y)),
            final(self)@.preferences == old(self)@.preferences,
            final(self)@.displays == old(self)@.displays,
            match old(self)@.session {
                Some(s) => final(self)@.session == Some(AnimationSession { x, y, ..s })
                    && c == (OverlayCommand::MoveTo { x, y }),
                None => final(self)@.session is None && c == OverlayCommand::Nothing,
            },
    {
        self.last_known_position = Some((x, y));
        match self.session {
            Some(s) => {
                self.session = Some(AnimationSession { x, y, ..s });
                OverlayCommand::MoveTo { x, y }
            },
            None => OverlayCommand::Nothing,
        }
    }

    /// Ends the running highlight, if any.
    pub fn hide_highlight(&mut self) -> (c: OverlayCommand)
        requires
            old(self).wf(),
        ensures
            final(self).wf(),
            final(self)@ == (FinderView { session: None, ..old(self)@ }),
            c == OverlayCommand::Hide,
    {
        self.session = None;
        OverlayCommand::Hide
    }

    /// Shows the highlight at the centre of the primary screen (the pointer
    /// itself cannot be moved here); fails when no screen is known.
    pub fn center_on_primary(&mut self, now_ms: u64) -> (r: Result<OverlayCommand, FinderError>)
        requires
            old(self).wf(),
        ensures
            final(self).wf(),
            match primary_index(old(self)@.displays) {
                Some(k) => {
                    let d = old(self)@.displays[k];
                    let x = (d.x + half(d.width as int)) as i32;
                    let y = (d.y + half(d.height as int)) as i32;
                    &&& final(self)@ == (FinderView {
                        session: Some(session_for(old(self)@.preferences, x, y, now_ms)),
                        ..old(self)@
                    })
                    &&& r == Ok::<OverlayCommand, FinderError>(
                        OverlayCommand::Show { x, y, session: session_for(old(self)@.preferences, x, y, now_ms) },
                    )
                },
                None => r == Err::<OverlayCommand, FinderError>(FinderError::NoPrimaryDisplay) && final(self)@
                    == old(self)@,
            },
    {
        proof {
            lemma_primary_index_in_range(self@.displays);
        }
        let center = match self.display_manager.primary_display() {
            Some(display) => display.center(),
            None => {
                return Err(FinderError::NoPrimaryDisplay);
            },
        };
        Ok(self.show_highlight_at(center.0, center.1, now_ms))
    }

    /// A shake was detected: highlight the pointer when the feature and shake
    /// detection are both enabled.
    pub fn on_shake(&mut self, now_ms: u64) -> (c: OverlayCommand)
        requires
            old(self).wf(),
        ensures
            final(self).wf(),
            !(old(self)@.preferences.enabled && old(self)@.preferences.shake_enabled) ==> c
                == OverlayCommand::Nothing && final(self)@ == old(self)@,
            old(self)@.preferences.enabled && old(self)@.preferences.shake_enabled ==> ({
                let (x, y) = find_position(old(self)@);
                &&& final(self)@ == (FinderView {
                    session: Some(session_for(old(self)@.preferences, x, y, now_ms)),
                    ..old(self)@
                })
                &&& c == (OverlayCommand::Show { x, y, session: session_for(old(self)@.preferences, x, y, now_ms) })
            }),
    {
        if self.preferences.enabled && self.preferences.shake_enabled {
            self.find_cursor(now_ms)
        } else {
            OverlayCommand::Nothing
        }
    }

    /// The pointer changed machines: highlight it when it came back and the
    /// feature is enabled; leaving is only noted.
    pub fn on_transition(&mut self, t: &CursorTransition, now_ms: u64) -> (c: OverlayCommand)
        requires
            old(self).wf(),
        ensures
            final(self).wf(),
            !(old(self)@.preferences.enabled && t.transition_type == TransitionType::Returned) ==> c
                == OverlayCommand::Nothing && final(self)@ == old(self)@,
            old(self)@.preferences.enabled && t.transition_type == TransitionType::Returned ==> ({
                let (x, y) = find_position(old(self)@);
                &&& final(self)@ == (FinderView {
                    session: Some(session_for(old(self)@.preferences, x, y, now_ms)),
                    ..old(self)@
                })
                &&& c == (OverlayCommand::Show { x, y, session: session_for(old(self)@.preferences, x, y, now_ms) })
            }),
    {
        match t.transition_type {
            TransitionType::Returned => self.find_cursor(now_ms),
            TransitionType::Left => OverlayCommand::Nothing,
        }
    }

    /// Advances the running highlight to `now_ms`. `queried` is the pointer
    /// position when the backend can ask for it, nothing when it learns of
    /// the pointer only through motion events. Once the highlight's duration
    /// has passed it ends; until then each tick draws the frame of the moment.
    pub fn tick(&mut self, now_ms: u64, queried: Option<(i32, i32)>) -> (c: OverlayCommand)
        requires
            old(self).wf(),
        ensures
            final(self).wf(),
            final(self)@.preferences == old(self)@.preferences,
            final(self)@.displays == old(self)@.displays,
            final(self)@.last_known_position == old(self)@.last_known_position,
            (final(self)@.session, c) == tick_outcome(old(self)@.session, now_ms, queried),
    {
        let s = match self.session {
            Some(s) => s,
            None => {
                return OverlayCommand::Nothing;
            },
        };
        let elapsed = if now_ms >= s.start_ms {
            now_ms - s.start_ms
        } else {
            0
        };
        if elapsed >= s.duration_ms {
            self.session = None;
            return OverlayCommand::Hide;
        }
        let (x, y) = match queried {
            Some(p) => p,
            None => (s.x, s.y),
        };
        self.session = Some(AnimationSession { x, y, ..s });
        let progress = calculate_animation_progress(elapsed, &s.animation_style);
        let visuals = animation_visuals(
            s.animation_style.animation_type,
            progress,
            s.cursor_style.color.a,
        );
        let plan = highlight_plan(&s.cursor_style, visuals);
        OverlayCommand::Draw { x, y, plan }
    }

    /// The screens known.
    pub fn displays(&self) -> (r: &[Display])
        ensures
            r@ == self@.displays,
    {
        self.display_manager.displays()
    }
}

} // verus!
