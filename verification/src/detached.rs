//! Events of the detached windows.

use vstd::prelude::*;

use crate::actions::REFLOW_DELAY;
use crate::presence::{Env, AUTOHIDE_GRACE, LAST_INSTANT};
use crate::state::{set_ui, App, AppView, DetachedUi, DetachedView, Presence, Stage, Timers};
use crate::tabs::{lemma_narrow, lemma_wf_frame, lemma_wf_narrow};
use crate::windows::RESCALE_DELAY;

verus! {

impl DetachedUi {
    /// The window's menu is closed.
    pub open spec fn spec_menu_closed(self) -> DetachedUi {
        DetachedUi { menu_open: false, menu_hover: None, ..self }
    }

    /// The window's menu is closed.
    #[verifier::when_used_as_spec(spec_menu_closed)]
    pub fn menu_closed(self) -> (r: DetachedUi)
        ensures
            r == self.spec_menu_closed(),
    {
        DetachedUi { menu_open: false, menu_hover: None, ..self }
    }

    /// The window is to be repainted.
    pub open spec fn spec_painted(self) -> DetachedUi {
        DetachedUi { paint: true, ..self }
    }

    /// The window is to be repainted.
    #[verifier::when_used_as_spec(spec_painted)]
    pub fn painted(self) -> (r: DetachedUi)
        ensures
            r == self.spec_painted(),
    {
        DetachedUi { paint: true, ..self }
    }

    /// The window is covered, or not; one that comes back is painted once.
    pub open spec fn covered(self, occluded: bool) -> DetachedUi {
        DetachedUi { occluded, paint: self.paint || !occluded, ..self }
    }

    /// The window changed its size.
    pub open spec fn resized(self, now: u64) -> DetachedUi {
        DetachedUi {
            reflow_pending_at: Some((now + REFLOW_DELAY) as u64),
            ..self.menu_closed().painted()
        }
    }

    /// The display scale changed.
    pub open spec fn rescaled(self, now: u64) -> DetachedUi {
        DetachedUi { reflow_pending_at: Some((now + RESCALE_DELAY) as u64), ..self.painted() }
    }

    fn cover(self, occluded: bool) -> (r: DetachedUi)
        ensures
            r == self.covered(occluded),
    {
        DetachedUi { occluded, paint: self.paint || !occluded, ..self }
    }

    fn resize(self, now: u64) -> (r: DetachedUi)
        requires
            now <= LAST_INSTANT,
        ensures
            r == self.resized(now),
    {
        DetachedUi {
            reflow_pending_at: Some(now + REFLOW_DELAY),
            ..self.menu_closed().painted()
        }
    }

    fn rescale(self, now: u64) -> (r: DetachedUi)
        requires
            now <= LAST_INSTANT,
        ensures
            r == self.rescaled(now),
    {
        DetachedUi { reflow_pending_at: Some(now + RESCALE_DELAY), ..self.painted() }
    }

    /// The link under the window's pointer is to be looked for.
    pub open spec fn spec_relinked(self) -> DetachedUi {
        DetachedUi { relink: true, ..self }
    }

    /// The link under the window's pointer is to be looked for.
    #[verifier::when_used_as_spec(spec_relinked)]
    pub fn relinked(self) -> (r: DetachedUi)
        ensures
            r == self.spec_relinked(),
    {
        DetachedUi { relink: true, ..self }
    }

    /// The window has gained the focus.
    pub open spec fn focused_in(self) -> DetachedUi {
        DetachedUi { focused: true, occluded: false, calm: true, ..self }
    }

    /// The window has lost the focus: nothing that waits for a release stays
    /// behind.
    pub open spec fn focused_out(self) -> DetachedUi {
        let u = self.unlinked();
        DetachedUi {
            focused: false,
            bar_drag: false,
            last_bar_click: None,
            selecting: false,
            grabbed: false,
            dragging_scrollbar: false,
            ..u.menu_closed()
        }
    }

    fn lose_focus(self) -> (r: DetachedUi)
        ensures
            r == self.focused_out(),
    {
        let u: DetachedUi = self.unlink();
        DetachedUi {
            focused: false,
            bar_drag: false,
            last_bar_click: None,
            selecting: false,
            grabbed: false,
            dragging_scrollbar: false,
            ..u.menu_closed()
        }
    }
}

impl Stage {
    /// A detached window has gained the focus: the user is still here.
    pub open spec fn detached_focused(self, window: u64) -> Stage {
        Stage {
            presence: Presence {
                last_focused_window: Some(window),
                switching_to_detached: true,
                ..self.presence
            },
            ..self.stay()
        }
    }

    fn focus_detached(self, window: u64) -> (r: Stage)
        ensures
            r == self.detached_focused(window),
    {
        Stage {
            presence: Presence {
                last_focused_window: Some(window),
                switching_to_detached: true,
                ..self.presence
            },
            ..self.stay()
        }
    }

    /// The main window would hide if the focus went elsewhere now.
    pub open spec fn leave_hides(self) -> bool {
        self.prefs.focus_autohide && self.presence.visible && self.timers.summon_anim is None
            && !self.timers.summon_pending
    }

    /// A detached window has lost the focus, perhaps to another application:
    /// the hide of the main window is scheduled where it is wanted.
    pub open spec fn detached_unfocused(self, window: u64, now: u64) -> Stage {
        Stage {
            presence: Presence {
                switching_to_detached: false,
                last_focused_window: if self.presence.last_focused_window == Some(window) {
                    None
                } else {
                    self.presence.last_focused_window
                },
                ..self.presence
            },
            timers: Timers {
                pending_autohide_at: if self.leave_hides() {
                    Some((now + AUTOHIDE_GRACE) as u64)
                } else {
                    self.timers.pending_autohide_at
                },
                ..self.timers
            },
            ..self
        }
    }

    fn unfocus_detached(self, window: u64, now: u64) -> (r: Stage)
        requires
            now <= LAST_INSTANT,
        ensures
            r == self.detached_unfocused(window, now),
    {
        let last_focused_window: Option<u64> = match self.presence.last_focused_window {
            Some(w) => if w == window {
                None
            } else {
                Some(w)
            },
            None => None,
        };
        let hides: bool = self.prefs.focus_autohide && self.presence.visible
            && self.timers.summon_anim.is_none() && !self.timers.summon_pending;
        let pending_autohide_at: Option<u64> = if hides {
            Some(now + AUTOHIDE_GRACE)
        } else {
            self.timers.pending_autohide_at
        };
        Stage {
            presence: Presence {
                switching_to_detached: false,
                last_focused_window,
                ..self.presence
            },
            timers: Timers { pending_autohide_at, ..self.timers },
            ..self
        }
    }
}

impl AppView {
    /// The detached window at `pos` has this interaction state.
    pub open spec fn with_ui(self, pos: int, ui: DetachedUi) -> AppView {
        AppView {
            detached: self.detached.update(pos, DetachedView { ui, ..self.detached[pos] }),
            ..self
        }
    }
}

/// What the window system tells about a detached window.
#[derive(Debug, Clone, Copy)]
pub enum DetachedEvent {
    CloseRequested,
    Occluded(bool),
    Resized,
    Rescaled,
    Focused,
    Unfocused,
    /// The modifiers changed; `true` where the link modifier is held.
    Modifiers(bool),
}

impl AppView {
    /// The application after an event of the detached window at `pos`.
    #[verifier::opaque]
    pub open spec fn detached_event(self, pos: int, e: DetachedEvent, env: Env) -> AppView {
        let d = self.detached[pos];
        match e {
            DetachedEvent::CloseRequested => self.reattach(pos, env),
            DetachedEvent::Occluded(b) => self.with_ui(pos, d.ui.covered(b)),
            DetachedEvent::Resized => self.with_ui(pos, d.ui.resized(env.now)),
            DetachedEvent::Rescaled => self.with_ui(pos, d.ui.rescaled(env.now)),
            DetachedEvent::Focused => (AppView {
                st: self.st.detached_focused(d.window),
                ..self
            }).with_ui(pos, d.ui.focused_in()),
            DetachedEvent::Unfocused => (AppView {
                st: self.st.detached_unfocused(d.window, env.now),
                ..self
            }).with_ui(pos, d.ui.focused_out()),
            DetachedEvent::Modifiers(held) => if held {
                self.with_ui(pos, d.ui.relinked())
            } else {
                self.all_unlinked()
            },
        }
    }
}

pub(crate) proof fn lemma_ui_wf(v: AppView, pos: int, ui: DetachedUi)
    requires
        v.wf(),
        0 <= pos < v.detached.len(),
    ensures
        v.with_ui(pos, ui).wf(),
{
    reveal(Stage::same_indices);
    lemma_wf_frame(v, v.with_ui(pos, ui));
}

impl App {
    /// Puts this interaction state into the detached window at `pos`.
    pub(crate) fn put_ui(&mut self, pos: usize, ui: DetachedUi)
        requires
            old(self)@.wf(),
            pos < old(self)@.detached.len(),
        ensures
            final(self)@ == old(self)@.with_ui(pos as int, ui),
            final(self)@.wf(),
    {
        proof {
            lemma_ui_wf(self@, pos as int, ui);
        }
        set_ui(&mut self.detached, pos, ui);
    }

    pub(crate) fn ui_at(&self, pos: usize) -> (r: DetachedUi)
        requires
            pos < self@.detached.len(),
        ensures
            r == self@.detached[pos as int].ui,
    {
        assert(self@.detached[pos as int] == self.detached@[pos as int]@);
        self.detached[pos].ui
    }

    pub(crate) fn window_at(&self, pos: usize) -> (r: u64)
        requires
            pos < self@.detached.len(),
        ensures
            r == self@.detached[pos as int].window,
    {
        assert(self@.detached[pos as int] == self.detached@[pos as int]@);
        self.detached[pos].window
    }

    pub(crate) fn put_stage(&mut self, st: Stage)
        requires
            old(self)@.wf(),
            old(self)@.st.narrows_to(st),
        ensures
            final(self)@ == (AppView { st, ..old(self)@ }),
            final(self)@.wf(),
    {
        proof {
            lemma_wf_narrow(self@, st);
        }
        self.st = st;
    }

    /// Handles an event of the detached window at `pos`; nothing where there
    /// is no such window.
    pub fn detached_window_event(&mut self, pos: usize, e: DetachedEvent, env: &Env)
        requires
            old(self)@.wf(),
            env.now <= LAST_INSTANT,
        ensures
            final(self)@ == if pos < old(self)@.detached.len() {
                old(self)@.detached_event(pos as int, e, *env)
            } else {
                old(self)@
            },
            final(self)@.wf(),
    {
        if pos >= self.detached.len() {
            return;
        }
        proof {
            reveal(AppView::detached_event);
        }
        let ui: DetachedUi = self.ui_at(pos);
        match e {
            DetachedEvent::CloseRequested => {
                self.reattach_tab(pos, env);
            },
            DetachedEvent::Occluded(occluded) => {
                self.put_ui(pos, ui.cover(occluded));
            },
            DetachedEvent::Resized => {
                self.put_ui(pos, ui.resize(env.now));
            },
            DetachedEvent::Rescaled => {
                self.put_ui(pos, ui.rescale(env.now));
            },
            DetachedEvent::Focused => {
                self.detached_gains_focus(pos, ui);
            },
            DetachedEvent::Unfocused => {
                self.detached_loses_focus(pos, ui, env.now);
            },
            DetachedEvent::Modifiers(held) => {
                if held {
                    self.put_ui(pos, ui.relinked());
                } else {
                    self.clear_all_link_hovers();
                }
            },
        }
    }

    fn detached_gains_focus(&mut self, pos: usize, ui: DetachedUi)
        requires
            old(self)@.wf(),
            pos < old(self)@.detached.len(),
            ui == old(self)@.detached[pos as int].ui,
        ensures
            final(self)@ == (AppView {
                st: old(self)@.st.detached_focused(old(self)@.detached[pos as int].window),
                ..old(self)@
            }).with_ui(pos as int, ui.focused_in()),
            final(self)@.wf(),
    {
        let window: u64 = self.window_at(pos);
        proof {
            lemma_narrow(self@.st, self@.st.detached_focused(window));
        }
        let st: Stage = self.st.focus_detached(window);
        self.put_stage(st);
        self.put_ui(pos, DetachedUi { focused: true, occluded: false, calm: true, ..ui });
    }

    fn detached_loses_focus(&mut self, pos: usize, ui: DetachedUi, now: u64)
        requires
            old(self)@.wf(),
            pos < old(self)@.detached.len(),
            ui == old(self)@.detached[pos as int].ui,
            now <= LAST_INSTANT,
        ensures
            final(self)@ == (AppView {
                st: old(self)@.st.detached_unfocused(
                    old(self)@.detached[pos as int].window,
                    now,
                ),
                ..old(self)@
            }).with_ui(pos as int, ui.focused_out()),
            final(self)@.wf(),
    {
        let window: u64 = self.window_at(pos);
        proof {
            lemma_narrow(self@.st, self@.st.detached_unfocused(window, now));
        }
        let st: Stage = self.st.unfocus_detached(window, now);
        self.put_stage(st);
        self.put_ui(pos, ui.lose_focus());
    }
}

/// Closing a detached window loses no tab: it goes back into the main window.
pub proof fn law_close_returns_tab(v: AppView, pos: int, env: Env)
    requires
        0 <= pos < v.detached.len(),
    ensures
        ({
            let w = v.detached_event(pos, DetachedEvent::CloseRequested, env);
            &&& w.tabs.len() == v.tabs.len() + 1
            &&& w.tabs.last().id == v.detached[pos].tab.id
            &&& w.detached.len() == v.detached.len() - 1
        }),
{
    reveal(AppView::detached_event);
}

/// A detached window that gains the focus calls a scheduled hide off; one that
/// loses it leaves no drag and no menu behind.
pub proof fn law_detached_focus(v: AppView, pos: int, env: Env)
    requires
        0 <= pos < v.detached.len(),
    ensures
        v.detached_event(pos, DetachedEvent::Focused, env).st.timers.pending_autohide_at is None,
        ({
            let ui = v.detached_event(pos, DetachedEvent::Unfocused, env).detached[pos].ui;
            !ui.selecting && !ui.dragging_scrollbar && !ui.bar_drag && !ui.grabbed && !ui.menu_open
                && !ui.link_hover
        }),
{
    reveal(AppView::detached_event);
}

/// Whoever has not switched auto-hide on keeps the main window when a detached
/// window loses the focus, and so does one that is hidden or still appearing.
pub proof fn law_detached_leaving_hides_only_where_wanted(v: AppView, pos: int, env: Env)
    requires
        0 <= pos < v.detached.len(),
        env.now <= LAST_INSTANT,
    ensures
        ({
            let w = v.detached_event(pos, DetachedEvent::Unfocused, env);
            let settled = v.st.timers.summon_anim is None && !v.st.timers.summon_pending;
            &&& !v.st.prefs.focus_autohide || !v.st.presence.visible || !settled
                ==> w.st.timers.pending_autohide_at == v.st.timers.pending_autohide_at
            &&& v.st.prefs.focus_autohide && v.st.presence.visible && settled
                ==> w.st.timers.pending_autohide_at == Some((env.now + 100_000_000) as u64)
        }),
{
    reveal(AppView::detached_event);
}

/// A detached window that gained the focus is the one last focused, one that
/// lost it is no longer, and another window's claim to that is kept.
pub proof fn law_detached_focus_is_remembered(v: AppView, pos: int, env: Env)
    requires
        0 <= pos < v.detached.len(),
    ensures
        ({
            let w = v.detached_event(pos, DetachedEvent::Focused, env);
            &&& w.st.presence.last_focused_window == Some(v.detached[pos].window)
            &&& w.st.presence.switching_to_detached
            &&& w.detached[pos].ui.focused && !w.detached[pos].ui.occluded
                && w.detached[pos].ui.calm
            &&& w.st.due == v.st.due && w.st.presence.visible == v.st.presence.visible
        }),
        ({
            let w = v.detached_event(pos, DetachedEvent::Unfocused, env);
            &&& !w.detached[pos].ui.focused && !w.st.presence.switching_to_detached
            &&& w.detached[pos].ui.last_bar_click is None
            &&& w.st.presence.last_focused_window != Some(v.detached[pos].window)
            &&& v.st.presence.last_focused_window != Some(v.detached[pos].window)
                ==> w.st.presence.last_focused_window == v.st.presence.last_focused_window
            &&& w.st.presence.visible == v.st.presence.visible
        }),
{
    reveal(AppView::detached_event);
}

/// A detached window that comes into view is painted, one that goes out of it
/// is not for that, and the window remembers which of the two it is.
pub proof fn law_uncovered_detached_is_painted(v: AppView, pos: int, covered: bool, env: Env)
    requires
        0 <= pos < v.detached.len(),
    ensures
        ({
            let w = v.detached_event(pos, DetachedEvent::Occluded(covered), env);
            &&& w.detached[pos].ui.occluded == covered
            &&& !covered ==> w.detached[pos].ui.paint
            &&& covered ==> w.detached[pos].ui.paint == v.detached[pos].ui.paint
            &&& w.st == v.st
        }),
{
    reveal(AppView::detached_event);
}

/// A detached window that changed its size closes its menu, is painted, and
/// refits its grid a quarter of a second after the last change; one that
/// changed its scale refits an eighth of a second later and keeps its menu.
pub proof fn law_detached_size_refits(v: AppView, pos: int, env: Env)
    requires
        0 <= pos < v.detached.len(),
        env.now <= LAST_INSTANT,
    ensures
        ({
            let u = v.detached_event(pos, DetachedEvent::Resized, env).detached[pos].ui;
            &&& u.reflow_pending_at == Some((env.now + 250_000_000) as u64)
            &&& !u.menu_open && u.menu_hover is None && u.paint
        }),
        ({
            let u = v.detached_event(pos, DetachedEvent::Rescaled, env).detached[pos].ui;
            &&& u.reflow_pending_at == Some((env.now + 120_000_000) as u64)
            &&& u.menu_open == v.detached[pos].ui.menu_open && u.paint
        }),
        v.detached_event(pos, DetachedEvent::Resized, env).st == v.st,
        v.detached_event(pos, DetachedEvent::Rescaled, env).st == v.st,
{
    reveal(AppView::detached_event);
}

/// With the link modifier down a detached window looks for a link; with it up
/// no window keeps one.
pub proof fn law_detached_modifiers(v: AppView, pos: int, i: int, env: Env)
    requires
        0 <= pos < v.detached.len(),
        0 <= i < v.detached.len(),
    ensures
        v.detached_event(pos, DetachedEvent::Modifiers(true), env).detached[pos].ui.relink,
        v.detached_event(pos, DetachedEvent::Modifiers(true), env).st == v.st,
        ({
            let w = v.detached_event(pos, DetachedEvent::Modifiers(false), env);
            &&& !w.detached[i].ui.link_hover && w.detached[i].ui.link_cell is None
            &&& !w.st.pointer.link_hover
            &&& v.detached[i].ui.link_hover ==> w.detached[i].ui.paint
        }),
{
    reveal(AppView::detached_event);
}

/// An event of one detached window leaves the tabs, the other windows and what
/// runs in them alone; only a request to close moves a tab.
pub proof fn law_detached_event_is_local(v: AppView, pos: int, i: int, e: DetachedEvent, env: Env)
    requires
        0 <= pos < v.detached.len(),
        0 <= i < v.detached.len(),
        e !is CloseRequested,
    ensures
        ({
            let w = v.detached_event(pos, e, env);
            &&& w.tabs == v.tabs && w.active == v.active && w.text == v.text
            &&& w.detached.len() == v.detached.len()
            &&& w.detached[i].window == v.detached[i].window && w.detached[i].tab
                == v.detached[i].tab
            &&& i != pos && e != DetachedEvent::Modifiers(false) ==> w.detached[i] == v.detached[i]
            &&& w.st.prefs == v.st.prefs && w.st.panel == v.st.panel && w.st.ui == v.st.ui
        }),
{
    reveal(AppView::detached_event);
}

} // verus!
