//! Showing, hiding and focusing the windows.

use vstd::prelude::*;

use crate::mode::WindowMode;
use crate::state::{
    DetachedUi, Due, FxToggles, Panel, Pointer, Presence, Stage, Timers, WindowCmd,
};
use crate::zone::{on_some, pos_on_some_monitor, CursorIcon, Monitor};

verus! {

/// Grace between losing the focus and hiding, in nanoseconds.
pub const AUTOHIDE_GRACE: u64 = 100_000_000;

/// After a summon, focus losses are ignored for this long, in nanoseconds.
pub const SUMMON_SETTLE: u64 = 300_000_000;

/// How long a new settings window is kept repainting, in nanoseconds.
pub const SETTINGS_PAINT: u64 = 600_000_000;

/// Frames for which a position is re-asserted after the window was mapped.
pub const SETTLE_FRAMES: u8 = 5;

/// The clock leaves room for every delay that the application adds to it.
pub const LAST_INSTANT: u64 = 0x7fff_ffff_ffff_ffff;

/// What the windowing side knows at the time of an event.
#[derive(Debug)]
pub struct Env {
    pub now: u64,
    /// The main window's position, where the platform tells it.
    pub outer_pos: Option<(i32, i32)>,
    pub monitors: Vec<Monitor>,
    /// Whether the surface and the font are there, so that grids can be fitted.
    pub grid_ready: bool,
}

impl FxToggles {
    /// The screen effect is on and one of its parts moves.
    pub open spec fn crt_live(self) -> bool {
        self.crt_enabled && (self.crt_animate_roll || self.crt_flicker || self.crt_jitter)
    }

    /// Whether the screen effect is on and one of its parts moves.
    pub fn crt_anim_live(self) -> (r: bool)
        ensures
            r == self.crt_live(),
    {
        self.crt_enabled && (self.crt_animate_roll || self.crt_flicker || self.crt_jitter)
    }
}

impl Stage {
    /// Asks for a repaint of the main window.
    pub open spec fn spec_paint_main(self) -> Stage {
        Stage { due: Due { paint_main: true, ..self.due }, ..self }
    }

    /// Asks for a repaint of the main window.
    #[verifier::when_used_as_spec(spec_paint_main)]
    pub fn paint_main(self) -> (r: Stage)
        ensures
            r == self.spec_paint_main(),
    {
        Stage { due: Due { paint_main: true, ..self.due }, ..self }
    }

    /// Asks for a repaint of the settings window.
    pub open spec fn spec_paint_settings(self) -> Stage {
        Stage { due: Due { paint_settings: true, ..self.due }, ..self }
    }

    /// Asks for a repaint of the settings window.
    #[verifier::when_used_as_spec(spec_paint_settings)]
    pub fn paint_settings(self) -> (r: Stage)
        ensures
            r == self.spec_paint_settings(),
    {
        Stage { due: Due { paint_settings: true, ..self.due }, ..self }
    }

    /// Asks for a repaint of every window.
    pub open spec fn spec_paint_all(self) -> Stage {
        Stage {
            due: Due { paint_main: true, paint_detached: true, paint_settings: true, ..self.due },
            ..self
        }
    }

    /// Asks for a repaint of every window.
    #[verifier::when_used_as_spec(spec_paint_all)]
    pub fn paint_all(self) -> (r: Stage)
        ensures
            r == self.spec_paint_all(),
    {
        Stage {
            due: Due { paint_main: true, paint_detached: true, paint_settings: true, ..self.due },
            ..self
        }
    }

    /// Asks for the configuration to be written; not while a reload is under
    /// way.
    pub open spec fn spec_persist(self) -> Stage {
        Stage {
            due: Due { persist: self.due.persist || !self.panel.reloading, ..self.due },
            ..self
        }
    }

    /// Asks for the configuration to be written; not while a reload is under
    /// way.
    #[verifier::when_used_as_spec(spec_persist)]
    pub fn persist(self) -> (r: Stage)
        ensures
            r == self.spec_persist(),
    {
        Stage { due: Due { persist: self.due.persist || !self.panel.reloading, ..self.due }, ..self }
    }

    /// Calls a scheduled auto-hide off.
    pub open spec fn spec_stay(self) -> Stage {
        Stage { timers: Timers { pending_autohide_at: None, ..self.timers }, ..self }
    }

    /// Calls a scheduled auto-hide off.
    #[verifier::when_used_as_spec(spec_stay)]
    pub fn stay(self) -> (r: Stage)
        ensures
            r == self.spec_stay(),
    {
        Stage { timers: Timers { pending_autohide_at: None, ..self.timers }, ..self }
    }

    /// The terms that keep the main window drawing are cleared, and a drag
    /// whose release will never arrive is dropped.
    pub open spec fn quiesced(self) -> Stage {
        Stage {
            timers: Timers {
                slide_anim: None,
                summon_anim: None,
                summon_pending: false,
                caret_anim: None,
                pending_dock_frames: 0,
                pending_center_frames: 0,
                ..self.timers
            },
            pointer: Pointer { selecting: false, dragging_scrollbar: false, ..self.pointer },
            ..self
        }
    }

    /// The main window goes off the screen; a floating one remembers its spot.
    pub open spec fn hidden(self, env: Env) -> Stage {
        Stage {
            presence: Presence {
                visible: false,
                last_pos: if self.prefs.window_mode == WindowMode::Center {
                    env.outer_pos
                } else {
                    self.presence.last_pos
                },
                ..self.presence
            },
            due: Due { window: Some(WindowCmd::Hide), ..self.due },
            ..self.quiesced()
        }
    }

    /// The remembered spot, where it still lies on a monitor.
    pub open spec fn live_spot(self, env: Env) -> Option<(i32, i32)> {
        match self.presence.last_pos {
            Some(pos) => if on_some(env.monitors@, pos) {
                Some(pos)
            } else {
                None
            },
            None => None,
        }
    }

    /// The main window comes onto the screen and reveals itself: docked at the
    /// top edge, at its remembered spot, or else in the middle.
    pub open spec fn shown(self, env: Env) -> Stage {
        let revealed = Timers {
            summon_pending: true,
            summon_settle_until: Some((env.now + SUMMON_SETTLE) as u64),
            ..self.timers
        };
        if self.prefs.window_mode == WindowMode::Dropdown {
            Stage {
                presence: Presence { visible: true, ..self.presence },
                timers: Timers {
                    pending_dock_frames: SETTLE_FRAMES,
                    slide_anim: Some(env.now),
                    ..revealed
                },
                due: Due { window: Some(WindowCmd::ShowDocked), paint_main: true, ..self.due },
                ..self
            }
        } else {
            let spot = self.live_spot(env);
            Stage {
                presence: Presence {
                    visible: true,
                    last_pos: spot,
                    pending_center_pos: spot,
                    ..self.presence
                },
                timers: Timers {
                    pending_center_frames: if spot is Some {
                        SETTLE_FRAMES
                    } else {
                        0
                    },
                    ..revealed
                },
                due: Due {
                    window: Some(
                        match spot {
                            Some(pos) => WindowCmd::ShowAt(pos.0, pos.1),
                            None => WindowCmd::ShowCentered,
                        },
                    ),
                    paint_main: true,
                    ..self.due
                },
                ..self
            }
        }
    }

    /// The main window is to be visible, or not. Showing one that is shown
    /// raises it; hiding one that is hidden does nothing.
    pub open spec fn visibility(self, want: bool, env: Env) -> Stage {
        if want == self.presence.visible {
            if !want {
                self
            } else if self.presence.main_window is None {
                self.stay()
            } else {
                Stage {
                    due: Due { window: Some(WindowCmd::Raise), paint_main: true, ..self.due },
                    ..self.stay()
                }
            }
        } else if self.presence.main_window is None {
            Stage { presence: Presence { visible: want, ..self.presence }, ..self.stay() }
        } else if want {
            self.stay().shown(env)
        } else {
            self.stay().hidden(env)
        }
    }

    /// Something keeps the main window drawing frame after frame.
    pub open spec fn self_driven(self) -> bool {
        ||| self.timers.summon_anim is Some
        ||| self.timers.slide_anim is Some
        ||| self.timers.summon_pending
        ||| self.timers.pending_dock_frames > 0
        ||| self.timers.pending_center_frames > 0
        ||| self.on_screen() && self.prefs.fx.crt_live()
        ||| self.on_screen() && self.timers.caret_anim is Some
    }

    /// The main window is shown and not covered.
    pub open spec fn on_screen(self) -> bool {
        self.presence.visible && !self.presence.main_occluded
    }

    fn leave_screen(self, env: &Env) -> (r: Stage)
        ensures
            r == self.hidden(*env),
    {
        let last_pos: Option<(i32, i32)> = if self.prefs.window_mode == WindowMode::Center {
            env.outer_pos
        } else {
            self.presence.last_pos
        };
        Stage {
            presence: Presence { visible: false, last_pos, ..self.presence },
            timers: Timers {
                slide_anim: None,
                summon_anim: None,
                summon_pending: false,
                caret_anim: None,
                pending_dock_frames: 0,
                pending_center_frames: 0,
                ..self.timers
            },
            pointer: Pointer { selecting: false, dragging_scrollbar: false, ..self.pointer },
            due: Due { window: Some(WindowCmd::Hide), ..self.due },
            ..self
        }
    }

    fn enter_screen(self, env: &Env) -> (r: Stage)
        requires
            env.now <= LAST_INSTANT,
        ensures
            r == self.shown(*env),
    {
        let revealed: Timers = Timers {
            summon_pending: true,
            summon_settle_until: Some(env.now + SUMMON_SETTLE),
            ..self.timers
        };
        if self.prefs.window_mode == WindowMode::Dropdown {
            return Stage {
                presence: Presence { visible: true, ..self.presence },
                timers: Timers {
                    pending_dock_frames: SETTLE_FRAMES,
                    slide_anim: Some(env.now),
                    ..revealed
                },
                due: Due { window: Some(WindowCmd::ShowDocked), paint_main: true, ..self.due },
                ..self
            };
        }
        let mut spot: Option<(i32, i32)> = None;
        if let Some(pos) = self.presence.last_pos {
            if pos_on_some_monitor(&env.monitors, pos) {
                spot = Some(pos);
            }
        }
        let (frames, cmd): (u8, WindowCmd) = match spot {
            Some(pos) => (SETTLE_FRAMES, WindowCmd::ShowAt(pos.0, pos.1)),
            None => (0, WindowCmd::ShowCentered),
        };
        Stage {
            presence: Presence {
                visible: true,
                last_pos: spot,
                pending_center_pos: spot,
                ..self.presence
            },
            timers: Timers { pending_center_frames: frames, ..revealed },
            due: Due { window: Some(cmd), paint_main: true, ..self.due },
            ..self
        }
    }

    /// Shows or hides the main window.
    pub fn set_visibility(self, want: bool, env: &Env) -> (r: Stage)
        requires
            env.now <= LAST_INSTANT,
        ensures
            r == self.visibility(want, *env),
    {
        if want == self.presence.visible {
            if !want {
                self
            } else if self.presence.main_window.is_none() {
                self.stay()
            } else {
                Stage {
                    due: Due { window: Some(WindowCmd::Raise), paint_main: true, ..self.due },
                    ..self.stay()
                }
            }
        } else if self.presence.main_window.is_none() {
            Stage { presence: Presence { visible: want, ..self.presence }, ..self.stay() }
        } else if want {
            self.stay().enter_screen(env)
        } else {
            self.stay().leave_screen(env)
        }
    }

    /// Shows a hidden main window and hides a shown one.
    pub fn toggle_visibility(self, env: &Env) -> (r: Stage)
        requires
            env.now <= LAST_INSTANT,
        ensures
            r == self.visibility(!self.presence.visible, *env),
    {
        self.set_visibility(!self.presence.visible, env)
    }

    /// The hide that follows when the focus has left the application.
    pub open spec fn autohidden(self, env: Env) -> Stage {
        if !self.presence.visible {
            self
        } else if self.presence.main_window is Some {
            self.hidden(env)
        } else {
            Stage {
                presence: Presence { visible: false, ..self.presence },
                timers: Timers {
                    caret_anim: None,
                    pending_dock_frames: 0,
                    pending_center_frames: 0,
                    ..self.timers
                },
                pointer: Pointer { selecting: false, dragging_scrollbar: false, ..self.pointer },
                ..self
            }
        }
    }

    /// Hides the main window because the focus has left the application.
    pub fn autohide_main_window(self, env: &Env) -> (r: Stage)
        ensures
            r == self.autohidden(*env),
    {
        if !self.presence.visible {
            self
        } else if self.presence.main_window.is_some() {
            self.leave_screen(env)
        } else {
            Stage {
                presence: Presence { visible: false, ..self.presence },
                timers: Timers {
                    caret_anim: None,
                    pending_dock_frames: 0,
                    pending_center_frames: 0,
                    ..self.timers
                },
                pointer: Pointer { selecting: false, dragging_scrollbar: false, ..self.pointer },
                ..self
            }
        }
    }

    /// The main window has gained the focus: it is on the screen, nothing is
    /// moving to a sibling window, and no hide is scheduled any more.
    pub open spec fn focused(self, window: u64) -> Stage {
        Stage {
            presence: Presence {
                last_focused_window: Some(window),
                main_focused: true,
                main_occluded: false,
                switching_to_detached: false,
                switching_to_settings: false,
                ..self.presence
            },
            due: Due { calm: true, paint_main: true, ..self.due },
            ..self.stay()
        }
    }

    /// The main window has gained the focus.
    pub fn main_focused_in(self, window: u64) -> (r: Stage)
        ensures
            r == self.focused(window),
    {
        Stage {
            presence: Presence {
                last_focused_window: Some(window),
                main_focused: true,
                main_occluded: false,
                switching_to_detached: false,
                switching_to_settings: false,
                ..self.presence
            },
            due: Due { calm: true, paint_main: true, ..self.due },
            ..self.stay()
        }
    }

    /// The focus went to the settings window.
    pub open spec fn to_settings(self) -> bool {
        self.presence.switching_to_settings || (self.presence.last_focused_window is Some
            && self.presence.last_focused_window == self.presence.settings_window)
    }

    /// Losing the focus now hides the main window: the user wants it, the
    /// window is shown and has settled, and the focus left the application.
    /// `in_detached` tells that the focus was last seen in a detached window.
    pub open spec fn autohide_wanted(self, in_detached: bool, now: u64) -> bool {
        &&& self.prefs.focus_autohide
        &&& self.presence.visible
        &&& self.timers.summon_anim is None
        &&& !self.timers.summon_pending
        &&& self.timers.summon_settle_until matches Some(t) ==> now >= t
        &&& !self.to_settings()
        &&& !self.presence.switching_to_detached
        &&& !in_detached
    }

    /// The main window has lost the focus: a held tab and a link underline are
    /// dropped, and the hide is scheduled where it is wanted.
    pub open spec fn defocused(self, in_detached: bool, now: u64) -> Stage {
        let exists = self.presence.main_window is Some;
        Stage {
            presence: Presence { main_focused: false, ..self.presence },
            pointer: Pointer { tab_drag: None, link_cell: None, link_hover: false, ..self.pointer },
            timers: Timers {
                pending_autohide_at: if self.autohide_wanted(in_detached, now) {
                    Some((now + AUTOHIDE_GRACE) as u64)
                } else {
                    self.timers.pending_autohide_at
                },
                ..self.timers
            },
            due: Due {
                paint_main: self.due.paint_main || (exists && self.pointer.link_hover),
                cursor: if exists && self.pointer.link_hover {
                    Some(self.pointer.resize_cursor.icon())
                } else if exists && self.pointer.tab_drag is Some {
                    Some(CursorIcon::Default)
                } else {
                    self.due.cursor
                },
                ..self.due
            },
            ..self
        }
    }

    /// The main window has lost the focus.
    pub fn main_focused_out(self, in_detached: bool, now: u64) -> (r: Stage)
        requires
            now <= LAST_INSTANT,
        ensures
            r == self.defocused(in_detached, now),
    {
        let exists: bool = self.presence.main_window.is_some();
        let settled: bool = match self.timers.summon_settle_until {
            Some(t) => now >= t,
            None => true,
        };
        let at_settings: bool = match (
            self.presence.last_focused_window,
            self.presence.settings_window,
        ) {
            (Some(a), Some(b)) => a == b,
            _ => false,
        };
        let to_settings: bool = self.presence.switching_to_settings || at_settings;
        let to_detached: bool = self.presence.switching_to_detached || in_detached;
        let wanted: bool = self.prefs.focus_autohide && self.presence.visible
            && self.timers.summon_anim.is_none() && !self.timers.summon_pending && settled
            && !to_settings && !to_detached;
        let pending_autohide_at: Option<u64> = if wanted {
            Some(now + AUTOHIDE_GRACE)
        } else {
            self.timers.pending_autohide_at
        };
        let cursor: Option<CursorIcon> = if exists && self.pointer.link_hover {
            Some(self.pointer.resize_cursor.cursor_icon())
        } else if exists && self.pointer.tab_drag.is_some() {
            Some(CursorIcon::Default)
        } else {
            self.due.cursor
        };
        Stage {
            presence: Presence { main_focused: false, ..self.presence },
            pointer: Pointer { tab_drag: None, link_cell: None, link_hover: false, ..self.pointer },
            timers: Timers { pending_autohide_at, ..self.timers },
            due: Due {
                paint_main: self.due.paint_main || (exists && self.pointer.link_hover),
                cursor,
                ..self.due
            },
            ..self
        }
    }

    /// The main window is covered, or not. One that comes back is painted once.
    pub open spec fn covered(self, occluded: bool) -> Stage {
        Stage {
            presence: Presence { main_occluded: occluded, ..self.presence },
            due: Due { paint_main: self.due.paint_main || !occluded, ..self.due },
            ..self
        }
    }

    /// The compositor tells whether the main window is covered.
    pub fn main_occluded(self, occluded: bool) -> (r: Stage)
        ensures
            r == self.covered(occluded),
    {
        Stage {
            presence: Presence { main_occluded: occluded, ..self.presence },
            due: Due { paint_main: self.due.paint_main || !occluded, ..self.due },
            ..self
        }
    }

    /// The settings window is gone: no focus memory, drag or open list of it
    /// stays behind.
    pub open spec fn settings_closed(self) -> Stage {
        Stage {
            presence: Presence {
                settings_window: None,
                switching_to_settings: false,
                last_focused_window: if self.presence.last_focused_window
                    == self.presence.settings_window {
                    None
                } else {
                    self.presence.last_focused_window
                },
                ..self.presence
            },
            pointer: Pointer {
                dragging_slider: false,
                dragging_radius: false,
                dragging_dropdown: false,
                dragging_dropdown_width: false,
                active_fx_drag: None,
                ..self.pointer
            },
            panel: Panel { theme_dropdown_open: false, theme_scroll_offset: 0, ..self.panel },
            ..self
        }
    }

    /// Closes the settings window.
    pub fn close_settings_window(self) -> (r: Stage)
        ensures
            r == self.settings_closed(),
    {
        let last_focused_window: Option<u64> = match (
            self.presence.last_focused_window,
            self.presence.settings_window,
        ) {
            (Some(a), Some(b)) => if a == b {
                None
            } else {
                Some(a)
            },
            (last, _) => last,
        };
        Stage {
            presence: Presence {
                settings_window: None,
                switching_to_settings: false,
                last_focused_window,
                ..self.presence
            },
            pointer: Pointer {
                dragging_slider: false,
                dragging_radius: false,
                dragging_dropdown: false,
                dragging_dropdown_width: false,
                active_fx_drag: None,
                ..self.pointer
            },
            panel: Panel { theme_dropdown_open: false, theme_scroll_offset: 0, ..self.panel },
            ..self
        }
    }

    /// Closes an open settings window; where there is none, tells the caller
    /// to build one.
    pub fn toggle_settings_window(self) -> (r: (Stage, bool))
        ensures
            r.1 == (self.presence.settings_window is None),
            r.1 ==> r.0 == self,
            !r.1 ==> r.0 == self.settings_closed().paint_main(),
    {
        if self.presence.settings_window.is_some() {
            (self.close_settings_window().paint_main(), false)
        } else {
            (self, true)
        }
    }

    /// A settings window was built and is kept repainting until it has shown
    /// itself.
    pub fn settings_opened(self, window: u64, now: u64) -> (r: Stage)
        requires
            now <= LAST_INSTANT,
        ensures
            r == (Stage {
                presence: Presence { settings_window: Some(window), ..self.presence },
                timers: Timers {
                    settings_paint_until: Some((now + SETTINGS_PAINT) as u64),
                    ..self.timers
                },
                ..self.paint_settings()
            }),
    {
        Stage {
            presence: Presence { settings_window: Some(window), ..self.presence },
            timers: Timers { settings_paint_until: Some(now + SETTINGS_PAINT), ..self.timers },
            ..self.paint_settings()
        }
    }

    /// The user is looking at the main window: it is shown, not covered, and
    /// has the focus or was summoned a moment ago.
    pub open spec fn watching(self, now: u64) -> bool {
        &&& self.presence.visible
        &&& !self.presence.main_occluded
        &&& self.presence.main_focused || (self.timers.summon_settle_until matches Some(t) && now
            < t)
    }

    /// Whether the user is looking at the main window.
    pub fn main_user_watching(self, now: u64) -> (r: bool)
        ensures
            r == self.watching(now),
    {
        if !self.presence.visible || self.presence.main_occluded {
            return false;
        }
        let settling: bool = match self.timers.summon_settle_until {
            Some(t) => now < t,
            None => false,
        };
        self.presence.main_focused || settling
    }
}

impl DetachedUi {
    /// Whether the user is looking at the detached window: it has the focus
    /// and is not covered.
    pub fn watching(self) -> (r: bool)
        ensures
            r == (self.focused && !self.occluded),
    {
        self.focused && !self.occluded
    }
}

/// After the main window was hidden nothing drives its frames any more.
pub proof fn law_hidden_is_idle(s: Stage, env: Env)
    requires
        s.presence.main_window is Some,
        s.presence.visible,
    ensures
        !s.visibility(false, env).presence.visible,
        !s.visibility(false, env).self_driven(),
        !s.autohidden(env).presence.visible,
        !s.autohidden(env).self_driven(),
{
}

/// Hiding a floating window and summoning it again brings it back to where it
/// stood, as long as that spot lies on a monitor.
pub proof fn law_summon_restores_spot(s: Stage, at_hide: Env, at_show: Env)
    requires
        s.presence.main_window is Some,
        s.presence.visible,
        s.prefs.window_mode == WindowMode::Center,
        at_hide.outer_pos matches Some(p) && on_some(at_show.monitors@, p),
    ensures
        s.visibility(false, at_hide).visibility(true, at_show).due.window == Some(
            WindowCmd::ShowAt((at_hide.outer_pos->0).0, (at_hide.outer_pos->0).1),
        ),
{
}

/// A docked window is never placed at a remembered spot.
pub proof fn law_dropdown_always_docks(s: Stage, env: Env)
    requires
        s.presence.main_window is Some,
        !s.presence.visible,
        s.prefs.window_mode == WindowMode::Dropdown,
    ensures
        s.visibility(true, env).due.window == Some(WindowCmd::ShowDocked),
        s.visibility(true, env).timers.pending_dock_frames == SETTLE_FRAMES,
{
}

/// An explicit change of visibility supersedes a scheduled auto-hide.
pub proof fn law_explicit_show_cancels_autohide(s: Stage, env: Env)
    ensures
        s.visibility(true, env).timers.pending_autohide_at is None,
        s.presence.visible ==> s.visibility(false, env).timers.pending_autohide_at is None,
{
}

/// The focus moving to one of the application's own windows never schedules a
/// hide, and neither does a focus loss right after a summon.
pub proof fn law_own_windows_do_not_hide(s: Stage, in_detached: bool, now: u64)
    requires
        s.to_settings() || s.presence.switching_to_detached || in_detached
            || s.timers.summon_pending || (s.timers.summon_settle_until matches Some(t) && now < t),
    ensures
        s.defocused(in_detached, now).timers.pending_autohide_at == s.timers.pending_autohide_at,
{
}

/// A focus loss within the settle time after a summon, as some window systems
/// deliver it while the window is being mapped, never schedules a hide.
pub proof fn law_summoned_window_survives_its_own_map(s: Stage, env: Env, in_detached: bool, now: u64)
    requires
        s.presence.main_window is Some,
        !s.presence.visible,
        env.now <= now < env.now + SUMMON_SETTLE <= u64::MAX,
    ensures
        s.visibility(true, env).defocused(in_detached, now).timers.pending_autohide_at is None,
{
}

/// Whoever has not switched auto-hide on keeps the window: no loss of focus
/// schedules a hide.
pub proof fn law_autohide_only_where_wanted(s: Stage, in_detached: bool, now: u64)
    ensures
        !s.prefs.focus_autohide ==> s.defocused(in_detached, now).timers.pending_autohide_at
            == s.timers.pending_autohide_at,
        !s.presence.visible ==> s.defocused(in_detached, now).timers.pending_autohide_at
            == s.timers.pending_autohide_at,
        s.timers.summon_anim is Some ==> s.defocused(in_detached, now).timers.pending_autohide_at
            == s.timers.pending_autohide_at,
{
}

/// Where it is switched on, a window that is shown, settled and left for
/// another application hides a tenth of a second later.
pub proof fn law_leaving_hides(s: Stage, now: u64)
    requires
        s.prefs.focus_autohide,
        s.presence.visible,
        s.timers.summon_anim is None,
        !s.timers.summon_pending,
        s.timers.summon_settle_until matches Some(t) ==> t <= now,
        !s.presence.switching_to_settings,
        !s.presence.switching_to_detached,
        s.presence.last_focused_window is None || s.presence.last_focused_window
            != s.presence.settings_window,
        now <= LAST_INSTANT,
    ensures
        s.defocused(false, now).timers.pending_autohide_at == Some((now + 100_000_000) as u64),
{
}

/// A window that lost the focus is no longer focused and drops what the
/// pointer held; one that regained it is, is taken to be uncovered, and stays.
pub proof fn law_focus_is_remembered(s: Stage, window: u64, in_detached: bool, now: u64)
    ensures
        !s.defocused(in_detached, now).presence.main_focused,
        s.defocused(in_detached, now).pointer.tab_drag is None,
        !s.defocused(in_detached, now).pointer.link_hover,
        s.defocused(in_detached, now).presence.visible == s.presence.visible,
        ({
            let f = s.focused(window);
            &&& f.presence.main_focused && !f.presence.main_occluded
            &&& f.presence.last_focused_window == Some(window)
            &&& !f.presence.switching_to_settings && !f.presence.switching_to_detached
            &&& f.timers.pending_autohide_at is None
            &&& f.due.paint_main && f.due.calm
            &&& f.presence.visible == s.presence.visible
        }),
{
}

/// Asking for a window to be shown or hidden makes it so; asking for what is
/// already so raises a shown one and leaves a hidden one alone.
pub proof fn law_visibility_is_what_was_asked(s: Stage, want: bool, env: Env)
    ensures
        s.visibility(want, env).presence.visible == want,
        s.presence.main_window is Some && s.presence.visible ==> s.visibility(
            true,
            env,
        ).due.window == Some(WindowCmd::Raise) && s.visibility(true, env).due.paint_main,
        s.presence.main_window is Some && s.presence.visible ==> s.visibility(
            false,
            env,
        ).due.window == Some(WindowCmd::Hide),
        !s.presence.visible ==> s.visibility(false, env) == s,
        s.presence.main_window is None ==> s.visibility(want, env).due == s.due,
{
}

/// A window that comes up reveals itself, is painted and, for three tenths of
/// a second, ignores losing the focus; a floating one with no spot of its own
/// comes up in the middle.
pub proof fn law_summon_reveals(s: Stage, env: Env)
    requires
        s.presence.main_window is Some,
        !s.presence.visible,
        env.now <= LAST_INSTANT,
    ensures
        ({
            let shown = s.visibility(true, env);
            &&& shown.timers.summon_pending
            &&& shown.timers.summon_settle_until == Some((env.now + 300_000_000) as u64)
            &&& shown.due.paint_main
            &&& s.prefs.window_mode == WindowMode::Dropdown ==> shown.timers.slide_anim == Some(
                env.now,
            ) && shown.timers.pending_dock_frames == 5
            &&& s.prefs.window_mode == WindowMode::Center && s.presence.last_pos is None
                ==> shown.due.window == Some(WindowCmd::ShowCentered)
                && shown.timers.pending_center_frames == 0 && shown.timers.slide_anim
                == s.timers.slide_anim
            &&& s.prefs.window_mode == WindowMode::Center ==> (s.presence.last_pos matches Some(p)
                ==> if on_some(env.monitors@, p) {
                shown.due.window == Some(WindowCmd::ShowAt(p.0, p.1))
                    && shown.presence.pending_center_pos == Some(p)
                    && shown.timers.pending_center_frames == 5
            } else {
                shown.due.window == Some(WindowCmd::ShowCentered) && shown.presence.last_pos is None
            })
        }),
{
}

/// Hiding a floating window remembers where it stood, drops what the pointer
/// held and leaves a docked one's spot alone.
pub proof fn law_hide_remembers(s: Stage, env: Env)
    requires
        s.presence.main_window is Some,
        s.presence.visible,
    ensures
        ({
            let h = s.visibility(false, env);
            &&& s.prefs.window_mode == WindowMode::Center ==> h.presence.last_pos == env.outer_pos
            &&& s.prefs.window_mode == WindowMode::Dropdown ==> h.presence.last_pos
                == s.presence.last_pos
            &&& !h.pointer.selecting && !h.pointer.dragging_scrollbar
            &&& h.timers.caret_anim is None
            &&& s.autohidden(env).presence.last_pos == h.presence.last_pos
            &&& s.autohidden(env).due.window == Some(WindowCmd::Hide)
        }),
{
}

/// Being covered is remembered, and being uncovered repaints.
pub proof fn law_uncovered_window_repaints(s: Stage)
    ensures
        s.covered(true).presence.main_occluded,
        s.covered(true).due == s.due,
        !s.covered(false).presence.main_occluded,
        s.covered(false).due.paint_main,
{
}

/// The user looks at a main window that is shown, uncovered and has the focus
/// or was just summoned, and at no other.
pub proof fn law_watching(s: Stage, now: u64)
    ensures
        !s.presence.visible || s.presence.main_occluded ==> !s.watching(now),
        s.presence.visible && !s.presence.main_occluded && s.presence.main_focused ==> s.watching(
            now,
        ),
        s.watching(now) && !s.presence.main_focused ==> (
        s.timers.summon_settle_until matches Some(t) && now < t),
{
}

/// Closing the settings window forgets its focus, its drags and its open list.
pub proof fn law_closed_settings_are_gone(s: Stage)
    ensures
        ({
            let c = s.settings_closed();
            &&& c.presence.settings_window is None && !c.presence.switching_to_settings
            &&& s.presence.settings_window is Some ==> c.presence.last_focused_window
                != s.presence.settings_window
            &&& s.presence.last_focused_window != s.presence.settings_window
                ==> c.presence.last_focused_window == s.presence.last_focused_window
            &&& !c.pointer.dragging_slider && !c.pointer.dragging_radius
            &&& !c.pointer.dragging_dropdown && !c.pointer.dragging_dropdown_width
            &&& c.pointer.active_fx_drag is None
            &&& !c.panel.theme_dropdown_open && c.panel.theme_scroll_offset == 0
            &&& c.presence.visible == s.presence.visible && c.prefs == s.prefs
        }),
{
}

/// The screen effect is live only while it is on and one of its parts moves,
/// and it keeps an uncovered window drawing.
pub proof fn law_moving_screen_is_drawn(s: Stage)
    ensures
        !s.prefs.fx.crt_enabled ==> !s.prefs.fx.crt_live(),
        s.prefs.fx.crt_live() <==> s.prefs.fx.crt_enabled && (s.prefs.fx.crt_animate_roll
            || s.prefs.fx.crt_flicker || s.prefs.fx.crt_jitter),
        s.presence.visible && !s.presence.main_occluded && s.prefs.fx.crt_live() ==> s.self_driven(),
        s.presence.visible && !s.presence.main_occluded && s.timers.caret_anim is Some
            ==> s.self_driven(),
        s.timers.summon_pending || s.timers.summon_anim is Some || s.timers.slide_anim is Some
            ==> s.self_driven(),
        s.timers.pending_dock_frames > 0 || s.timers.pending_center_frames > 0 ==> s.self_driven(),
{
}

/// What is asked to be painted or written is; nothing is written while a
/// reload is under way.
pub proof fn law_work_is_noted(s: Stage)
    ensures
        s.paint_main().due.paint_main,
        s.paint_settings().due.paint_settings,
        s.paint_all().due.paint_main && s.paint_all().due.paint_detached
            && s.paint_all().due.paint_settings,
        !s.panel.reloading ==> s.persist().due.persist,
        s.panel.reloading ==> s.persist().due.persist == s.due.persist,
        s.stay().timers.pending_autohide_at is None,
{
}

/// A window that lost the focus keeps no link under the pointer.
pub proof fn law_unfocused_holds_no_link(s: Stage, in_detached: bool, now: u64)
    ensures
        s.defocused(in_detached, now).pointer.link_cell is None,
        !s.defocused(in_detached, now).pointer.link_hover,
{
}

} // verus!
