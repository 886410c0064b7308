//! Events of the windows and of other threads: whom they concern, and what
//! they do to the main window.

use vstd::prelude::*;

use crate::actions::REFLOW_DELAY;
use crate::events::AppEvent;
use crate::notify::lemma_visibility_frame;
use crate::presence::{Env, LAST_INSTANT};
use crate::state::{detached_views, App, AppView, Detached, DetachedView, Stage, Timers};
use crate::tabs::{lemma_narrow, lemma_wf_narrow, lemma_wf_stage};

verus! {

/// After a change of the display scale the grids are fitted this much later,
/// in nanoseconds.
pub const RESCALE_DELAY: u64 = 120_000_000;

/// Whom a window event concerns.
#[derive(Debug, Clone, Copy, PartialEq, Eq, Structural)]
pub enum Route {
    Settings,
    /// The detached window at this place in the list.
    Detached(usize),
    Main,
    /// A window that is gone.
    Nobody,
}

/// `i` is the first detached window called `id`.
pub open spec fn first_window(list: Seq<DetachedView>, id: u64, i: int) -> bool {
    &&& 0 <= i < list.len()
    &&& list[i].window == id
    &&& forall|j: int| 0 <= j < i ==> (#[trigger] list[j]).window != id
}

/// No detached window is called `id`.
pub open spec fn no_window(list: Seq<DetachedView>, id: u64) -> bool {
    forall|j: int| 0 <= j < list.len() ==> (#[trigger] list[j]).window != id
}

/// The place of the detached window called `id`.
pub fn find_window(list: &Vec<Detached>, id: u64) -> (r: Option<usize>)
    ensures
        r matches Some(i) ==> first_window(detached_views(list@), id, i as int),
        r is None ==> no_window(detached_views(list@), id),
{
    let mut i: usize = 0;
    while i < list.len()
        invariant
            0 <= i <= list@.len(),
            forall|j: int| 0 <= j < i ==> (#[trigger] detached_views(list@)[j]).window != id,
        decreases list@.len() - i,
    {
        assert(detached_views(list@)[i as int] == list@[i as int]@);
        if list[i].window == id {
            return Some(i);
        }
        i = i + 1;
    }
    None
}

impl AppView {
    /// An event of window `id` concerns `r`. What still comes from a window
    /// that is gone concerns nobody, the main window least of all.
    pub open spec fn routes(self, id: u64, r: Route) -> bool {
        match r {
            Route::Settings => self.st.presence.settings_window == Some(id),
            Route::Detached(i) => self.st.presence.settings_window != Some(id) && first_window(
                self.detached,
                id,
                i as int,
            ),
            Route::Main => self.st.presence.settings_window != Some(id) && no_window(
                self.detached,
                id,
            ) && self.st.presence.main_window == Some(id),
            Route::Nobody => self.st.presence.settings_window != Some(id) && no_window(
                self.detached,
                id,
            ) && self.st.presence.main_window != Some(id),
        }
    }

    /// The focus was last seen in a detached window.
    pub open spec fn focus_in_detached(self) -> bool {
        self.st.presence.last_focused_window matches Some(w) && !no_window(self.detached, w)
    }
}

fn is_window(w: Option<u64>, id: u64) -> (r: bool)
    ensures
        r == (w == Some(id)),
{
    match w {
        Some(x) => x == id,
        None => false,
    }
}

impl Stage {
    /// The main window changed its size: the menus hang in the wrong place,
    /// and the grids are fitted when the changes have settled.
    pub open spec fn resized(self, now: u64) -> Stage {
        let s = self.dismiss_menus();
        (Stage {
            timers: Timers {
                reflow_pending_at: Some((now + REFLOW_DELAY) as u64),
                ..s.timers
            },
            ..s
        }).paint_main()
    }

    /// The display scale changed; the surface follows with its own event.
    pub open spec fn rescaled(self, now: u64) -> Stage {
        (Stage {
            timers: Timers {
                reflow_pending_at: Some((now + RESCALE_DELAY) as u64),
                ..self.timers
            },
            ..self
        }).paint_main()
    }
}

/// What the window system tells about the main window.
#[derive(Debug, Clone, Copy)]
pub enum MainEvent {
    CloseRequested,
    Occluded(bool),
    Resized,
    Rescaled,
    Focused,
    Unfocused,
}

impl AppView {
    /// The scalar state after an event of the main window.
    #[verifier::opaque]
    pub open spec fn main_event(self, e: MainEvent, id: u64, now: u64) -> Stage {
        match e {
            MainEvent::CloseRequested => self.st.ask_quit(),
            MainEvent::Occluded(b) => self.st.covered(b),
            MainEvent::Resized => self.st.resized(now),
            MainEvent::Rescaled => self.st.rescaled(now),
            MainEvent::Focused => self.st.focused(id),
            MainEvent::Unfocused => self.st.defocused(self.focus_in_detached(), now),
        }
    }

    /// The scalar state after an event from another thread.
    #[verifier::opaque]
    pub open spec fn outside_event(self, e: AppEvent, env: Env) -> Stage {
        match e {
            AppEvent::Wake => self.st,
            AppEvent::ToggleVisibility => self.st.visibility(!self.st.presence.visible, env),
            AppEvent::SetVisible(want) => self.st.visibility(want, env),
            AppEvent::ConfigChanged => self.st.reload_awaited(env.now),
        }
    }
}

proof fn lemma_main_event(v: AppView, e: MainEvent, id: u64, now: u64)
    ensures
        v.st.narrows_to(v.main_event(e, id, now)),
{
    reveal(AppView::main_event);
    let s = v.st;
    match e {
        MainEvent::CloseRequested => {
            lemma_narrow(s, s.ask_quit());
        },
        MainEvent::Occluded(b) => {
            lemma_narrow(s, s.covered(b));
        },
        MainEvent::Resized => {
            lemma_narrow(s, s.resized(now));
        },
        MainEvent::Rescaled => {
            lemma_narrow(s, s.rescaled(now));
        },
        MainEvent::Focused => {
            lemma_narrow(s, s.focused(id));
        },
        MainEvent::Unfocused => {
            lemma_narrow(s, s.defocused(v.focus_in_detached(), now));
        },
    }
}

proof fn lemma_outside_event(v: AppView, e: AppEvent, env: Env)
    requires
        v.wf(),
    ensures
        (AppView { st: v.outside_event(e, env), ..v }).wf(),
{
    reveal(AppView::outside_event);
    match e {
        AppEvent::ConfigChanged => {
            lemma_narrow(v.st, v.st.reload_awaited(env.now));
            lemma_wf_narrow(v, v.st.reload_awaited(env.now));
        },
        AppEvent::ToggleVisibility => {
            lemma_visibility_frame(v.st, !v.st.presence.visible, env);
            lemma_wf_stage(v, v.st.visibility(!v.st.presence.visible, env));
        },
        AppEvent::SetVisible(want) => {
            lemma_visibility_frame(v.st, want, env);
            lemma_wf_stage(v, v.st.visibility(want, env));
        },
        AppEvent::Wake => {},
    }
}

impl App {
    /// Whom an event of window `id` concerns.
    pub fn route(&self, id: u64) -> (r: Route)
        ensures
            self@.routes(id, r),
    {
        if is_window(self.st.presence.settings_window, id) {
            return Route::Settings;
        }
        match find_window(&self.detached, id) {
            Some(i) => Route::Detached(i),
            None => if is_window(self.st.presence.main_window, id) {
                Route::Main
            } else {
                Route::Nobody
            },
        }
    }

    fn focus_was_in_detached(&self) -> (r: bool)
        ensures
            r == self@.focus_in_detached(),
    {
        match self.st.presence.last_focused_window {
            Some(w) => find_window(&self.detached, w).is_some(),
            None => false,
        }
    }

    /// Handles an event of the main window, which is called `id`.
    pub fn main_window_event(&mut self, e: MainEvent, id: u64, now: u64)
        requires
            old(self)@.wf(),
            now <= LAST_INSTANT,
        ensures
            final(self)@ == (AppView { st: old(self)@.main_event(e, id, now), ..old(self)@ }),
            final(self)@.wf(),
    {
        proof {
            lemma_main_event(self@, e, id, now);
            lemma_wf_narrow(self@, self@.main_event(e, id, now));
            reveal(AppView::main_event);
        }
        let st: Stage = match e {
            MainEvent::CloseRequested => self.st.ask_quit(),
            MainEvent::Occluded(b) => self.st.main_occluded(b),
            MainEvent::Resized => {
                let s: Stage = self.st.dismiss_menus();
                (Stage {
                    timers: Timers { reflow_pending_at: Some(now + REFLOW_DELAY), ..s.timers },
                    ..s
                }).paint_main()
            },
            MainEvent::Rescaled => (Stage {
                timers: Timers { reflow_pending_at: Some(now + RESCALE_DELAY), ..self.st.timers },
                ..self.st
            }).paint_main(),
            MainEvent::Focused => self.st.main_focused_in(id),
            MainEvent::Unfocused => {
                let there: bool = self.focus_was_in_detached();
                self.st.main_focused_out(there, now)
            },
        };
        self.st = st;
    }

    /// Handles an event from another thread. Tells whether the terminals are
    /// to be drained.
    pub fn user_event(&mut self, e: AppEvent, env: &Env) -> (r: bool)
        requires
            old(self)@.wf(),
            env.now <= LAST_INSTANT,
        ensures
            final(self)@ == (AppView { st: old(self)@.outside_event(e, *env), ..old(self)@ }),
            r == (e is Wake),
            final(self)@.wf(),
    {
        proof {
            lemma_outside_event(self@, e, *env);
            reveal(AppView::outside_event);
        }
        match e {
            AppEvent::Wake => true,
            AppEvent::ToggleVisibility => {
                self.st = self.st.toggle_visibility(env);
                false
            },
            AppEvent::SetVisible(want) => {
                self.st = self.st.set_visibility(want, env);
                false
            },
            AppEvent::ConfigChanged => {
                self.st = self.st.config_changed(env.now);
                false
            },
        }
    }
}

/// An event of a window concerns exactly one of the settings window, one
/// detached window, the main window and nobody.
pub proof fn law_route_is_unique(v: AppView, id: u64, a: Route, b: Route)
    requires
        v.routes(id, a),
        v.routes(id, b),
    ensures
        a == b,
{
}

/// What a window that is gone still sends never concerns the main window.
pub proof fn law_stale_events_are_dropped(v: AppView, id: u64, r: Route)
    requires
        v.routes(id, r),
        v.st.presence.main_window != Some(id),
        v.st.presence.settings_window != Some(id),
        no_window(v.detached, id),
    ensures
        r is Nobody,
{
}

/// A request to close the window asks first: it ends nothing by itself.
pub proof fn law_close_request_asks(v: AppView, id: u64, now: u64)
    ensures
        v.main_event(MainEvent::CloseRequested, id, now).ui.confirm_quit,
        v.main_event(MainEvent::CloseRequested, id, now).due.exit == v.st.due.exit,
{
    reveal(AppView::main_event);
}

/// However often the window's size changes, the grids are fitted once, when
/// the last change is old enough.
pub proof fn law_resizes_coalesce(s: Stage, first: u64, last: u64)
    requires
        first <= last <= LAST_INSTANT,
    ensures
        s.resized(first).resized(last).timers == s.resized(last).timers,
{
}

/// An event goes to the window that it names: the settings window, a detached
/// one, or the main one.
pub proof fn law_events_find_their_window(v: AppView, id: u64, r: Route)
    requires
        v.routes(id, r),
    ensures
        v.st.presence.settings_window == Some(id) ==> r is Settings,
        r matches Route::Detached(i) ==> i < v.detached.len() && v.detached[i as int].window == id,
        r is Main ==> v.st.presence.main_window == Some(id),
        v.st.presence.main_window == Some(id) && v.st.presence.settings_window != Some(id)
            && no_window(v.detached, id) ==> r is Main,
        v.st.presence.settings_window != Some(id) && !no_window(v.detached, id) ==> r is Detached,
{
}

/// The focus is in a detached window exactly where the last one that had it is
/// one of them.
pub proof fn law_focus_in_detached(v: AppView, i: int)
    ensures
        0 <= i < v.detached.len() && v.st.presence.last_focused_window == Some(v.detached[i].window)
            ==> v.focus_in_detached(),
        v.st.presence.last_focused_window is None ==> !v.focus_in_detached(),
        v.detached.len() == 0 ==> !v.focus_in_detached(),
{
}

/// A resized window closes its menus, whose places no longer hold, and fits its
/// grid a quarter of a second after the last change; one on another display
/// somewhat sooner.
pub proof fn law_resize_refits(v: AppView, id: u64, now: u64)
    requires
        now <= LAST_INSTANT,
    ensures
        ({
            let r = v.main_event(MainEvent::Resized, id, now);
            let s = v.main_event(MainEvent::Rescaled, id, now);
            &&& r.timers.reflow_pending_at == Some((now + 250_000_000) as u64)
            &&& !r.ui.context_menu && r.ui.tab_menu is None && r.due.paint_main
            &&& s.timers.reflow_pending_at == Some((now + 120_000_000) as u64)
            &&& s.due.paint_main
        }),
{
    reveal(AppView::main_event);
}

/// The main window's focus and cover are what the window system says.
pub proof fn law_main_window_is_told(v: AppView, id: u64, b: bool, now: u64)
    ensures
        v.main_event(MainEvent::Occluded(b), id, now).presence.main_occluded == b,
        v.main_event(MainEvent::Focused, id, now).presence.main_focused,
        v.main_event(MainEvent::Focused, id, now).presence.last_focused_window == Some(id),
        v.main_event(MainEvent::Focused, id, now).timers.pending_autohide_at is None,
        !v.main_event(MainEvent::Unfocused, id, now).presence.main_focused,
        !v.st.prefs.focus_autohide ==> v.main_event(
            MainEvent::Unfocused,
            id,
            now,
        ).timers.pending_autohide_at == v.st.timers.pending_autohide_at,
        v.main_event(MainEvent::Unfocused, id, now).presence.visible == v.st.presence.visible,
{
    reveal(AppView::main_event);
}

/// The hotkey shows a hidden window and hides a shown one; the command line
/// asks for the one or the other; a changed file is noted.
pub proof fn law_outside_events(v: AppView, want: bool, env: Env)
    requires
        env.now <= LAST_INSTANT,
    ensures
        v.outside_event(AppEvent::ToggleVisibility, env).presence.visible
            == !v.st.presence.visible,
        v.outside_event(AppEvent::SetVisible(want), env).presence.visible == want,
        v.outside_event(AppEvent::ConfigChanged, env).timers.pending_reload_at == Some(
            (env.now + 200_000_000) as u64,
        ),
        v.outside_event(AppEvent::Wake, env) == v.st,
{
    reveal(AppView::outside_event);
    crate::presence::law_visibility_is_what_was_asked(v.st, !v.st.presence.visible, env);
    crate::presence::law_visibility_is_what_was_asked(v.st, want, env);
}

} // verus!
