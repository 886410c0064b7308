//! What is done when the event loop is about to sleep, and for how long it
//! sleeps.

use vstd::prelude::*;

use crate::presence::Env;
use crate::tabs::lemma_wf_frame;
use crate::state::{
    detached_views, map_uis, App, AppView, Detached, DetachedUi, DetachedView, Due, Overlays, Stage,
    Timers,
};

verus! {

/// Least time between two searches of the scrollback while output streams, in
/// nanoseconds.
pub const SEARCH_REFRESH_INTERVAL: u64 = 150_000_000;

/// How the event loop goes on.
#[derive(Debug, Clone, Copy, PartialEq, Eq, Structural)]
pub enum Flow {
    /// Go on at once: something is being animated.
    Poll,
    /// Sleep until this instant or the next event.
    WaitUntil(u64),
    /// Sleep until the next event.
    Wait,
}

/// When matches that were searched for at `t` may be searched for again; the
/// clock does not go beyond its end.
pub open spec fn next_refresh(t: u64) -> u64 {
    if t + SEARCH_REFRESH_INTERVAL <= u64::MAX {
        (t + SEARCH_REFRESH_INTERVAL) as u64
    } else {
        u64::MAX
    }
}

fn refresh_after(t: u64) -> (r: u64)
    ensures
        r == next_refresh(t),
{
    if t <= u64::MAX - SEARCH_REFRESH_INTERVAL {
        t + SEARCH_REFRESH_INTERVAL
    } else {
        u64::MAX
    }
}

/// A deadline that has come.
pub open spec fn has_come(deadline: Option<u64>, now: u64) -> bool {
    deadline matches Some(d) && now >= d
}

/// Whether a deadline has come.
pub fn elapsed(deadline: Option<u64>, now: u64) -> (r: bool)
    ensures
        r == has_come(deadline, now),
{
    match deadline {
        Some(d) => now >= d,
        None => false,
    }
}

/// `m` is the earliest of the deadlines in `s`, or none where there is none.
pub open spec fn is_earliest(m: Option<u64>, s: Seq<Option<u64>>) -> bool {
    &&& m is None <==> forall|i: int| 0 <= i < s.len() ==> #[trigger] s[i] is None
    &&& m matches Some(d) ==> {
        &&& exists|i: int| 0 <= i < s.len() && #[trigger] s[i] == Some(d)
        &&& forall|i: int| 0 <= i < s.len() && #[trigger] s[i] is Some ==> d <= s[i]->0
    }
}

/// The earlier of two deadlines.
pub open spec fn earlier(a: Option<u64>, b: Option<u64>) -> Option<u64> {
    match (a, b) {
        (Some(x), Some(y)) => if x <= y {
            a
        } else {
            b
        },
        (Some(_), None) => a,
        _ => b,
    }
}

fn merge(a: Option<u64>, b: Option<u64>) -> (r: Option<u64>)
    ensures
        r == earlier(a, b),
{
    match (a, b) {
        (Some(x), Some(y)) => if x <= y {
            a
        } else {
            b
        },
        (Some(_), None) => a,
        _ => b,
    }
}

proof fn lemma_earliest_push(m: Option<u64>, s: Seq<Option<u64>>, d: Option<u64>)
    requires
        is_earliest(m, s),
    ensures
        is_earliest(earlier(m, d), s.push(d)),
{
    let t = s.push(d);
    assert(t[s.len() as int] == d);
    assert forall|i: int| 0 <= i < s.len() implies #[trigger] s[i] == t[i] by {}
    if let Some(x) = m {
        let i = choose|i: int| 0 <= i < s.len() && #[trigger] s[i] == Some(x);
        assert(t[i] == Some(x));
    }
}

proof fn lemma_earliest_append(a: Option<u64>, s: Seq<Option<u64>>, b: Option<u64>, t: Seq<Option<u64>>)
    requires
        is_earliest(a, s),
        is_earliest(b, t),
    ensures
        is_earliest(earlier(a, b), s + t),
{
    let u = s + t;
    assert forall|i: int| 0 <= i < s.len() implies #[trigger] s[i] == u[i] by {}
    assert forall|i: int| 0 <= i < t.len() implies #[trigger] t[i] == u[s.len() + i] by {}
    if let Some(x) = a {
        let i = choose|i: int| 0 <= i < s.len() && #[trigger] s[i] == Some(x);
        assert(u[i] == Some(x));
    }
    if let Some(x) = b {
        let i = choose|i: int| 0 <= i < t.len() && #[trigger] t[i] == Some(x);
        assert(u[s.len() + i] == Some(x));
    }
    assert forall|i: int| 0 <= i < u.len() implies (#[trigger] u[i] == if i < s.len() {
        s[i]
    } else {
        t[i - s.len()]
    }) by {}
}

/// The earliest of the listed deadlines.
pub fn earliest(list: &Vec<Option<u64>>) -> (r: Option<u64>)
    ensures
        is_earliest(r, list@),
{
    let mut m: Option<u64> = None;
    let mut i: usize = 0;
    while i < list.len()
        invariant
            0 <= i <= list@.len(),
            is_earliest(m, list@.take(i as int)),
        decreases list@.len() - i,
    {
        proof {
            lemma_earliest_push(m, list@.take(i as int), list@[i as int]);
            assert(list@.take(i + 1) =~= list@.take(i as int).push(list@[i as int]));
        }
        m = merge(m, list[i]);
        i = i + 1;
    }
    proof {
        assert(list@.take(list@.len() as int) =~= list@);
    }
    m
}

impl DetachedUi {
    /// A detached window that is not covered is being animated.
    pub open spec fn animates(self, crt: bool) -> bool {
        !self.occluded && (crt || self.caret_anim is Some)
    }

    /// A detached window whose deadlines are looked at: a synchronized update
    /// that ran out shows, and a reflow that is due happens.
    pub open spec fn ticked(self, sync: Option<u64>, now: u64) -> DetachedUi {
        let fit = has_come(self.reflow_pending_at, now);
        DetachedUi {
            reflow_pending_at: if fit {
                None
            } else {
                self.reflow_pending_at
            },
            reflow: self.reflow || fit,
            relink: self.relink || fit,
            paint: self.paint || fit || (has_come(sync, now) && !self.occluded),
            ..self
        }
    }

    fn tick(self, sync: Option<u64>, now: u64) -> (r: DetachedUi)
        ensures
            r == self.ticked(sync, now),
    {
        let fit: bool = elapsed(self.reflow_pending_at, now);
        let reflow_pending_at: Option<u64> = if fit {
            None
        } else {
            self.reflow_pending_at
        };
        DetachedUi {
            reflow_pending_at,
            reflow: self.reflow || fit,
            relink: self.relink || fit,
            paint: self.paint || fit || (elapsed(sync, now) && !self.occluded),
            ..self
        }
    }

    /// A running animation has asked for its next frame.
    pub open spec fn driven(self, crt: bool) -> DetachedUi {
        DetachedUi { paint: self.paint || self.animates(crt), ..self }
    }

    fn moves(self, crt: bool) -> (r: bool)
        ensures
            r == self.animates(crt),
    {
        !self.occluded && (crt || self.caret_anim.is_some())
    }

    fn drive(self, crt: bool) -> (r: DetachedUi)
        ensures
            r == self.driven(crt),
    {
        DetachedUi { paint: self.paint || self.moves(crt), ..self }
    }
}

impl Stage {
    /// Every grid of the main window is fitted anew. The repaints that this
    /// makes background shells do count as no output for a while.
    pub open spec fn reflowed(self, env: Env) -> Stage {
        if !env.grid_ready {
            self
        } else {
            Stage {
                timers: Timers { reflow_resized_at: Some(env.now), ..self.timers },
                due: Due { reflow: true, relink: true, ..self.due },
                ..self
            }
        }
    }

    /// Fits every grid of the main window anew.
    pub fn reflow(self, env: &Env) -> (r: Stage)
        ensures
            r == self.reflowed(*env),
    {
        if !env.grid_ready {
            return self;
        }
        Stage {
            timers: Timers { reflow_resized_at: Some(env.now), ..self.timers },
            due: Due { reflow: true, relink: true, ..self.due },
            ..self
        }
    }

    /// The stored matches are stale and may be searched for again.
    pub open spec fn search_due(self, now: u64) -> bool {
        &&& self.ui.search_open
        &&& self.ui.search_dirty
        &&& self.timers.search_refresh_at matches Some(t) ==> now >= t + SEARCH_REFRESH_INTERVAL
    }

    /// Whether the stored matches are stale and may be searched for again.
    pub fn is_search_due(self, now: u64) -> (r: bool)
        ensures
            r == self.search_due(now),
    {
        self.ui.search_open && self.ui.search_dirty && match self.timers.search_refresh_at {
            Some(t) => now >= t && now - t >= SEARCH_REFRESH_INTERVAL,
            None => true,
        }
    }

    /// A font change that has settled fits the grids.
    pub open spec fn reflow_step(self, env: Env) -> Stage {
        if has_come(self.timers.reflow_pending_at, env.now) {
            (Stage { timers: Timers { reflow_pending_at: None, ..self.timers }, ..self }).reflowed(
                env,
            ).paint_main()
        } else {
            self
        }
    }

    /// A hide that was scheduled and not called off happens.
    pub open spec fn autohide_step(self, env: Env) -> Stage {
        if has_come(self.timers.pending_autohide_at, env.now) {
            self.stay().autohidden(env)
        } else {
            self
        }
    }

    /// A burst of configuration changes that has settled is read.
    pub open spec fn reload_step(self, now: u64) -> Stage {
        if has_come(self.timers.pending_reload_at, now) {
            Stage {
                timers: Timers { pending_reload_at: None, ..self.timers },
                due: Due { reload: true, ..self.due },
                ..self
            }
        } else {
            self
        }
    }

    /// Matches that went stale in a burst of output are searched for once
    /// more. `active` is the active tab.
    pub open spec fn search_step(self, active: Option<u64>, now: u64) -> Stage {
        if self.search_due(now) && active is Some {
            Stage {
                ui: Overlays { search_dirty: false, ..self.ui },
                timers: Timers { search_refresh_at: Some(now), ..self.timers },
                due: Due {
                    search_refresh: active,
                    paint_main: self.due.paint_main || self.on_screen(),
                    ..self.due
                },
                ..self
            }
        } else {
            self
        }
    }

    /// The work whose time has come is done. `synced` tells that the active
    /// tab's synchronized update ran out.
    #[verifier::opaque]
    pub open spec fn serviced(self, synced: bool, env: Env) -> Stage {
        let shown = Stage {
            due: Due { paint_main: self.due.paint_main || (synced && self.on_screen()), ..self.due },
            ..self
        };
        shown.reflow_step(env).autohide_step(env).reload_step(env.now)
    }

    fn service(self, synced: bool, env: &Env) -> (r: Stage)
        ensures
            r == self.serviced(synced, *env),
    {
        reveal(Stage::serviced);
        let on_screen: bool = self.presence.visible && !self.presence.main_occluded;
        let s: Stage = Stage {
            due: Due { paint_main: self.due.paint_main || (synced && on_screen), ..self.due },
            ..self
        };
        let s: Stage = s.do_reflow(env);
        let s: Stage = s.do_autohide(env);
        s.do_reload(env.now)
    }

    fn do_reflow(self, env: &Env) -> (r: Stage)
        ensures
            r == self.reflow_step(*env),
    {
        if elapsed(self.timers.reflow_pending_at, env.now) {
            (Stage { timers: Timers { reflow_pending_at: None, ..self.timers }, ..self }).reflow(
                env,
            ).paint_main()
        } else {
            self
        }
    }

    fn do_autohide(self, env: &Env) -> (r: Stage)
        ensures
            r == self.autohide_step(*env),
    {
        if elapsed(self.timers.pending_autohide_at, env.now) {
            self.stay().autohide_main_window(env)
        } else {
            self
        }
    }

    fn do_reload(self, now: u64) -> (r: Stage)
        ensures
            r == self.reload_step(now),
    {
        if elapsed(self.timers.pending_reload_at, now) {
            Stage {
                timers: Timers { pending_reload_at: None, ..self.timers },
                due: Due { reload: true, ..self.due },
                ..self
            }
        } else {
            self
        }
    }

    fn do_search(self, active: Option<u64>, now: u64) -> (r: Stage)
        ensures
            r == self.search_step(active, now),
    {
        if self.is_search_due(now) && active.is_some() {
            let on_screen: bool = self.presence.visible && !self.presence.main_occluded;
            Stage {
                ui: Overlays { search_dirty: false, ..self.ui },
                timers: Timers { search_refresh_at: Some(now), ..self.timers },
                due: Due {
                    search_refresh: active,
                    paint_main: self.due.paint_main || on_screen,
                    ..self.due
                },
                ..self
            }
        } else {
            self
        }
    }

    /// The settings window is still showing itself for the first time.
    pub open spec fn settings_pending(self, now: u64) -> bool {
        self.presence.settings_window is Some && (self.timers.settings_paint_until matches Some(d)
            && now < d)
    }

    /// The reading of the performance display is to be replaced by "idle".
    pub open spec fn idle_reading_pending(self) -> bool {
        self.prefs.show_perf_hud && !self.timers.perf_idle_shown && self.timers.perf_idle_at
            is Some
    }

    /// Frames that are wanted now are asked for.
    pub open spec fn animated(self, now: u64) -> Stage {
        Stage {
            due: Due {
                paint_main: self.due.paint_main || self.self_driven() || (
                self.idle_reading_pending() && has_come(self.timers.perf_idle_at, now)),
                paint_settings: self.due.paint_settings || self.settings_pending(now),
                ..self.due
            },
            ..self
        }
    }

    /// The main window's deadlines that one wake is owed for.
    pub open spec fn deadlines(self, now: u64) -> Seq<Option<u64>> {
        seq![
            self.timers.reflow_pending_at,
            self.timers.pending_autohide_at,
            self.timers.pending_reload_at,
            if self.ui.search_open && self.ui.search_dirty && self.timers.search_refresh_at is Some {
                Some(next_refresh(self.timers.search_refresh_at->0))
            } else {
                None
            },
            if self.idle_reading_pending() && !has_come(self.timers.perf_idle_at, now) {
                self.timers.perf_idle_at
            } else {
                None
            },
        ]
    }

    fn is_self_driven(self) -> (r: bool)
        ensures
            r == self.self_driven(),
    {
        let on_screen: bool = self.presence.visible && !self.presence.main_occluded;
        self.timers.summon_anim.is_some() || self.timers.slide_anim.is_some()
            || self.timers.summon_pending || self.timers.pending_dock_frames > 0
            || self.timers.pending_center_frames > 0 || (on_screen
            && self.prefs.fx.crt_anim_live()) || (on_screen && self.timers.caret_anim.is_some())
    }

    fn is_settings_pending(self, now: u64) -> (r: bool)
        ensures
            r == self.settings_pending(now),
    {
        self.presence.settings_window.is_some() && match self.timers.settings_paint_until {
            Some(d) => now < d,
            None => false,
        }
    }

    fn animate(self, now: u64) -> (r: Stage)
        ensures
            r == self.animated(now),
    {
        let idle: bool = self.prefs.show_perf_hud && !self.timers.perf_idle_shown
            && self.timers.perf_idle_at.is_some();
        Stage {
            due: Due {
                paint_main: self.due.paint_main || self.is_self_driven() || (idle && elapsed(
                    self.timers.perf_idle_at,
                    now,
                )),
                paint_settings: self.due.paint_settings || self.is_settings_pending(now),
                ..self.due
            },
            ..self
        }
    }

    fn next_deadline(self, now: u64) -> (r: Option<u64>)
        ensures
            is_earliest(r, self.deadlines(now)),
    {
        let idle: bool = self.prefs.show_perf_hud && !self.timers.perf_idle_shown
            && self.timers.perf_idle_at.is_some();
        let perf: Option<u64> = if idle && !elapsed(self.timers.perf_idle_at, now) {
            self.timers.perf_idle_at
        } else {
            None
        };
        let search: Option<u64> = match self.timers.search_refresh_at {
            Some(t) => if self.ui.search_open && self.ui.search_dirty {
                Some(refresh_after(t))
            } else {
                None
            },
            None => None,
        };
        let mut list: Vec<Option<u64>> = Vec::new();
        list.push(self.timers.reflow_pending_at);
        list.push(self.timers.pending_autohide_at);
        list.push(self.timers.pending_reload_at);
        list.push(search);
        list.push(perf);
        assert(list@ =~= self.deadlines(now));
        earliest(&list)
    }
}

/// The reflow deadlines of the detached windows.
pub open spec fn detached_deadlines(s: Seq<DetachedView>) -> Seq<Option<u64>> {
    s.map_values(|d: DetachedView| d.ui.reflow_pending_at)
}

/// The synchronized update of window `i`, where the list is long enough.
pub open spec fn sync_at(s: Seq<Option<u64>>, i: int) -> Option<u64> {
    if 0 <= i < s.len() {
        s[i]
    } else {
        None
    }
}

/// The synchronized updates that have not run out.
pub open spec fn running(s: Seq<Option<u64>>, now: u64) -> Seq<Option<u64>> {
    s.map_values(
        |d: Option<u64>|
            if has_come(d, now) {
                None
            } else {
                d
            },
    )
}

fn still_running(s: &Vec<Option<u64>>, now: u64) -> (r: Vec<Option<u64>>)
    ensures
        r@ == running(s@, now),
{
    let mut out: Vec<Option<u64>> = Vec::new();
    let mut i: usize = 0;
    while i < s.len()
        invariant
            0 <= i <= s@.len(),
            out@ == running(s@, now).take(i as int),
        decreases s@.len() - i,
    {
        if elapsed(s[i], now) {
            out.push(None);
        } else {
            out.push(s[i]);
        }
        i = i + 1;
        proof {
            assert(running(s@, now).take(i as int) =~= running(s@, now).take(i - 1).push(
                running(s@, now)[i - 1],
            ));
        }
    }
    proof {
        assert(running(s@, now).take(s@.len() as int) =~= running(s@, now));
    }
    out
}

/// The positions of the synchronized updates that have run out and are to be
/// shown as they are.
pub fn expired(s: &Vec<Option<u64>>, now: u64) -> (r: Vec<usize>)
    ensures
        forall|i: int| 0 <= i < s@.len() ==> (has_come(#[trigger] s@[i], now) <==> r@.contains(i as usize)),
        forall|k: int| 0 <= k < r@.len() ==> #[trigger] r@[k] < s@.len(),
        forall|j: int, k: int| 0 <= j < k < r@.len() ==> r@[j] < r@[k],
{
    let mut out: Vec<usize> = Vec::new();
    let mut i: usize = 0;
    while i < s.len()
        invariant
            0 <= i <= s@.len(),
            forall|j: int| 0 <= j < i ==> (has_come(#[trigger] s@[j], now) <==> out@.contains(j as usize)),
            forall|k: int| 0 <= k < out@.len() ==> #[trigger] out@[k] < i,
            forall|j: int, k: int| 0 <= j < k < out@.len() ==> out@[j] < out@[k],
        decreases s@.len() - i,
    {
        let ghost before = out@;
        if elapsed(s[i], now) {
            out.push(i);
            proof {
                assert(out@[before.len() as int] == i);
                assert forall|j: int| 0 <= j < i implies (has_come(#[trigger] s@[j], now) <==> out@.contains(
                    j as usize,
                )) by {
                    if before.contains(j as usize) {
                        let k = before.index_of(j as usize);
                        assert(out@[k] == j as usize);
                    }
                }
            }
        }
        i = i + 1;
    }
    out
}

impl AppView {
    /// The application after its deadlines were looked at: what was due is
    /// done. `tabs` and `windows` hold the ends of the synchronized updates of
    /// the tabs and of the detached windows.
    pub open spec fn ticked(self, env: Env, tabs: Seq<Option<u64>>, windows: Seq<Option<u64>>) -> AppView {
        AppView {
            st: self.st.serviced(has_come(sync_at(tabs, self.active), env.now), env),
            detached: Seq::new(
                self.detached.len(),
                |i: int|
                    DetachedView {
                        ui: self.detached[i].ui.ticked(sync_at(windows, i), env.now),
                        ..self.detached[i]
                    },
            ),
            ..self
        }
    }

    /// Something is being animated, in whichever window.
    pub open spec fn animates(self, now: u64) -> bool {
        ||| self.st.self_driven()
        ||| self.st.settings_pending(now)
        ||| exists|i: int|
            0 <= i < self.detached.len() && (#[trigger] self.detached[i]).ui.animates(
                self.st.prefs.fx.crt_live(),
            )
    }

    /// The application before the loop sleeps: stale matches are searched for,
    /// and whatever moves has asked for its next frame.
    pub open spec fn settled(self, now: u64) -> AppView {
        AppView {
            st: self.st.search_step(self.active_id(), now).animated(now),
            detached: Seq::new(
                self.detached.len(),
                |i: int|
                    DetachedView {
                        ui: self.detached[i].ui.driven(self.st.prefs.fx.crt_live()),
                        ..self.detached[i]
                    },
            ),
            ..self
        }
    }

    /// All deadlines that one wake is owed for: those of the main window, of
    /// the detached windows, and of the synchronized updates still running.
    pub open spec fn deadlines(self, now: u64, tabs: Seq<Option<u64>>, windows: Seq<Option<u64>>) -> Seq<
        Option<u64>,
    > {
        self.st.deadlines(now) + detached_deadlines(self.detached) + running(tabs, now) + running(
            windows,
            now,
        )
    }

    /// How the loop goes on: at once while something is animated, else asleep
    /// until the earliest deadline, if there is one.
    pub open spec fn is_flow(self, f: Flow, now: u64, tabs: Seq<Option<u64>>, windows: Seq<Option<u64>>) -> bool {
        let due = self.deadlines(now, tabs, windows);
        match f {
            Flow::Poll => self.animates(now),
            Flow::WaitUntil(t) => !self.animates(now) && is_earliest(Some(t), due),
            Flow::Wait => !self.animates(now) && is_earliest(None, due),
        }
    }
}

impl App {
    /// Does what is due. Deadlines that have come are cleared.
    pub fn service_deadlines(
        &mut self,
        env: &Env,
        tabs: &Vec<Option<u64>>,
        windows: &Vec<Option<u64>>,
    )
        ensures
            final(self)@ == old(self)@.ticked(*env, tabs@, windows@),
            old(self)@.wf() ==> final(self)@.wf(),
    {
        proof {
            if self@.wf() {
                lemma_ticked_wf(self@, *env, tabs@, windows@);
            }
        }
        let synced: bool = self.active < tabs.len() && elapsed(tabs[self.active], env.now);
        self.st = self.st.service(synced, env);
        tick_windows(&mut self.detached, windows, env.now);
    }

    /// Searches for stale matches, asks for the next frame of whatever moves,
    /// and decides how the loop goes on.
    pub fn settle(&mut self, now: u64, tabs: &Vec<Option<u64>>, windows: &Vec<Option<u64>>) -> (r: Flow)
        ensures
            final(self)@ == old(self)@.settled(now),
            final(self)@.is_flow(r, now, tabs@, windows@),
            old(self)@.wf() ==> final(self)@.wf(),
    {
        proof {
            if self@.wf() {
                lemma_settled_wf(self@, now);
            }
        }
        let id: Option<u64> = self.active_tab_id();
        let crt: bool = self.st.prefs.fx.crt_anim_live();
        self.st = self.st.do_search(id, now).animate(now);
        drive_windows(&mut self.detached, crt);
        let moving: bool = any_moves(&self.detached, crt);
        if moving || self.st.is_self_driven() || self.st.is_settings_pending(now) {
            return Flow::Poll;
        }
        let wake: Option<u64> = self.wake_at(now, tabs, windows);
        match wake {
            Some(t) => Flow::WaitUntil(t),
            None => Flow::Wait,
        }
    }

    fn wake_at(&self, now: u64, tabs: &Vec<Option<u64>>, windows: &Vec<Option<u64>>) -> (r: Option<u64>)
        ensures
            is_earliest(r, self@.deadlines(now, tabs@, windows@)),
    {
        let a: Option<u64> = self.st.next_deadline(now);
        let b: Option<u64> = next_reflow(&self.detached);
        let c: Option<u64> = earliest(&still_running(tabs, now));
        let d: Option<u64> = earliest(&still_running(windows, now));
        proof {
            let s1 = self@.st.deadlines(now);
            let s2 = detached_deadlines(self@.detached);
            let s3 = running(tabs@, now);
            let s4 = running(windows@, now);
            lemma_earliest_append(a, s1, b, s2);
            lemma_earliest_append(earlier(a, b), s1 + s2, c, s3);
            lemma_earliest_append(earlier(earlier(a, b), c), s1 + s2 + s3, d, s4);
        }
        merge(merge(merge(a, b), c), d)
    }
}

/// Looks at the deadlines of every detached window.
fn tick_windows(list: &mut Vec<Detached>, windows: &Vec<Option<u64>>, now: u64)
    ensures
        detached_views(final(list)@) == Seq::new(
            old(list)@.len(),
            |i: int|
                DetachedView {
                    ui: detached_views(old(list)@)[i].ui.ticked(sync_at(windows@, i), now),
                    ..detached_views(old(list)@)[i]
                },
        ),
{
    let ghost v = detached_views(list@);
    let f = |i: usize, ui: DetachedUi| -> (r: DetachedUi)
        ensures
            r == ui.ticked(sync_at(windows@, i as int), now),
    {
        let sync: Option<u64> = if i < windows.len() {
            windows[i]
        } else {
            None
        };
        ui.tick(sync, now)
    };
    map_uis(list, f);
    assert(detached_views(list@) =~= Seq::new(
        v.len(),
        |i: int| DetachedView { ui: v[i].ui.ticked(sync_at(windows@, i), now), ..v[i] },
    ));
}

/// Asks every detached window that moves for its next frame.
fn drive_windows(list: &mut Vec<Detached>, crt: bool)
    ensures
        detached_views(final(list)@) == Seq::new(
            old(list)@.len(),
            |i: int|
                DetachedView {
                    ui: detached_views(old(list)@)[i].ui.driven(crt),
                    ..detached_views(old(list)@)[i]
                },
        ),
{
    let ghost v = detached_views(list@);
    let f = |_i: usize, ui: DetachedUi| -> (r: DetachedUi)
        ensures
            r == ui.driven(crt),
    {
        ui.drive(crt)
    };
    map_uis(list, f);
    assert(detached_views(list@) =~= Seq::new(
        v.len(),
        |i: int| DetachedView { ui: v[i].ui.driven(crt), ..v[i] },
    ));
}

/// Whether some detached window moves.
fn any_moves(list: &Vec<Detached>, crt: bool) -> (r: bool)
    ensures
        r == exists|i: int|
            0 <= i < list@.len() && (#[trigger] detached_views(list@)[i]).ui.animates(crt),
{
    let ghost v = detached_views(list@);
    let mut i: usize = 0;
    while i < list.len()
        invariant
            0 <= i <= list@.len(),
            v == detached_views(list@),
            forall|j: int| 0 <= j < i ==> !(#[trigger] v[j]).ui.animates(crt),
        decreases list@.len() - i,
    {
        assert(v[i as int].ui == list@[i as int].ui);
        if list[i].ui.moves(crt) {
            return true;
        }
        i = i + 1;
    }
    false
}

/// The earliest reflow that a detached window waits for.
fn next_reflow(list: &Vec<Detached>) -> (r: Option<u64>)
    ensures
        is_earliest(r, detached_deadlines(detached_views(list@))),
{
    let ghost all = detached_deadlines(detached_views(list@));
    let mut m: Option<u64> = None;
    let mut i: usize = 0;
    while i < list.len()
        invariant
            0 <= i <= list@.len(),
            all == detached_deadlines(detached_views(list@)),
            is_earliest(m, all.take(i as int)),
        decreases list@.len() - i,
    {
        proof {
            lemma_earliest_push(m, all.take(i as int), all[i as int]);
            assert(all.take(i + 1) =~= all.take(i as int).push(all[i as int]));
            assert(all[i as int] == list@[i as int].ui.reflow_pending_at);
        }
        m = merge(m, list[i].ui.reflow_pending_at);
        i = i + 1;
    }
    proof {
        assert(all.take(list@.len() as int) =~= all);
    }
    m
}

/// Nothing animated and nothing due: the loop sleeps until the next event.
pub proof fn law_idle_waits(v: AppView, f: Flow, now: u64, tabs: Seq<Option<u64>>, windows: Seq<Option<u64>>)
    requires
        v.is_flow(f, now, tabs, windows),
        !v.animates(now),
        forall|i: int|
            0 <= i < v.deadlines(now, tabs, windows).len() ==> #[trigger] v.deadlines(now, tabs, windows)[i]
                is None,
    ensures
        f == Flow::Wait,
{
}

/// While nothing is animated the loop never polls, and it never sleeps past a
/// deadline.
pub proof fn law_never_oversleeps(v: AppView, f: Flow, now: u64, tabs: Seq<Option<u64>>, windows: Seq<Option<u64>>, i: int)
    requires
        v.is_flow(f, now, tabs, windows),
        !v.animates(now),
        0 <= i < v.deadlines(now, tabs, windows).len(),
        v.deadlines(now, tabs, windows)[i] is Some,
    ensures
        f matches Flow::WaitUntil(t) && t <= v.deadlines(now, tabs, windows)[i]->0,
{
}

/// A main window that is covered or hidden never drives frames by its screen
/// effect or its caret.
pub proof fn law_covered_window_does_not_animate(s: Stage)
    requires
        !s.on_screen(),
        s.timers.summon_anim is None,
        s.timers.slide_anim is None,
        !s.timers.summon_pending,
        s.timers.pending_dock_frames == 0,
        s.timers.pending_center_frames == 0,
    ensures
        !s.self_driven(),
{
}

/// A covered detached window never drives frames.
pub proof fn law_covered_detached_does_not_animate(ui: DetachedUi, crt: bool)
    requires
        ui.occluded,
    ensures
        !ui.animates(crt),
        ui.driven(crt) == ui,
{
}

proof fn lemma_autohide_timers(s: Stage, env: Env)
    ensures
        s.autohide_step(env).timers.reflow_pending_at == s.timers.reflow_pending_at,
        s.autohide_step(env).timers.pending_reload_at == s.timers.pending_reload_at,
        !has_come(s.autohide_step(env).timers.pending_autohide_at, env.now),
{
}

proof fn lemma_reflow_frame(s: Stage, env: Env)
    ensures
        s.reflow_step(env).same_indices(s),
{
    reveal(Stage::same_indices);
}

proof fn lemma_autohide_frame(s: Stage, env: Env)
    ensures
        s.autohide_step(env).same_indices(s),
{
    reveal(Stage::same_indices);
}

proof fn lemma_serviced_frame(s: Stage, synced: bool, env: Env)
    ensures
        s.same_indices(s.serviced(synced, env)),
{
    reveal(Stage::serviced);
    reveal(Stage::same_indices);
    let shown = Stage {
        due: Due { paint_main: s.due.paint_main || (synced && s.on_screen()), ..s.due },
        ..s
    };
    lemma_reflow_frame(shown, env);
    lemma_autohide_frame(shown.reflow_step(env), env);
    let a = shown.reflow_step(env).autohide_step(env);
    assert(s.serviced(synced, env) == a.reload_step(env.now));
}

proof fn lemma_settled_frame(s: Stage, active: Option<u64>, now: u64)
    ensures
        s.same_indices(s.search_step(active, now).animated(now)),
{
    reveal(Stage::same_indices);
}

proof fn lemma_ticked_wf(v: AppView, env: Env, tabs: Seq<Option<u64>>, windows: Seq<Option<u64>>)
    requires
        v.wf(),
    ensures
        v.ticked(env, tabs, windows).wf(),
{
    lemma_serviced_frame(v.st, has_come(sync_at(tabs, v.active), env.now), env);
    lemma_wf_frame(v, v.ticked(env, tabs, windows));
}

proof fn lemma_settled_wf(v: AppView, now: u64)
    requires
        v.wf(),
    ensures
        v.settled(now).wf(),
{
    lemma_settled_frame(v.st, v.active_id(), now);
    lemma_wf_frame(v, v.settled(now));
}

proof fn lemma_reflow_timers(s: Stage, env: Env)
    ensures
        !has_come(s.reflow_step(env).timers.reflow_pending_at, env.now),
{
}

/// Once deadlines were looked at, none that has come is left.
pub proof fn law_serviced_deadlines_lie_ahead(s: Stage, synced: bool, env: Env)
    ensures
        !has_come(s.serviced(synced, env).timers.reflow_pending_at, env.now),
        !has_come(s.serviced(synced, env).timers.pending_autohide_at, env.now),
        !has_come(s.serviced(synced, env).timers.pending_reload_at, env.now),
{
    reveal(Stage::serviced);
    let shown = Stage {
        due: Due { paint_main: s.due.paint_main || (synced && s.on_screen()), ..s.due },
        ..s
    };
    lemma_reflow_timers(shown, env);
    lemma_autohide_timers(shown.reflow_step(env), env);
    let a = shown.reflow_step(env).autohide_step(env);
    assert(s.serviced(synced, env) == a.reload_step(env.now));
}

/// A deadline has come at its instant and stays so.
pub proof fn law_deadlines_come(d: u64, now: u64)
    ensures
        now >= d ==> has_come(Some(d), now),
        now < d ==> !has_come(Some(d), now),
        !has_come(None, now),
{
}

/// The earlier of two deadlines is one of them and no later than the other.
pub proof fn law_earlier_deadline(a: Option<u64>, b: Option<u64>)
    ensures
        is_earliest(earlier(a, b), seq![a, b]),
        earlier(a, b) == earlier(b, a),
        earlier(a, None) == a,
{
    let s = seq![a, b];
    assert(s[0] == a && s[1] == b);
    match earlier(a, b) {
        Some(d) => {
            if a == Some(d) {
                assert(s[0] == Some(d));
            } else {
                assert(s[1] == Some(d));
            }
        },
        None => {},
    }
}

/// A detached window refits when its wait is over, and is painted; output that
/// it held back is painted when its time has come, unless it is covered.
pub proof fn law_detached_tick(u: DetachedUi, sync: Option<u64>, now: u64)
    ensures
        ({
            let x = u.ticked(sync, now);
            let fits = u.reflow_pending_at is Some && now >= u.reflow_pending_at.unwrap();
            let flushes = sync is Some && now >= sync.unwrap();
            &&& fits ==> x.reflow && x.relink && x.paint && x.reflow_pending_at is None
            &&& !fits ==> x.reflow == u.reflow && x.relink == u.relink && x.reflow_pending_at
                == u.reflow_pending_at
            &&& flushes && !u.occluded ==> x.paint
            &&& !fits && (!flushes || u.occluded) ==> x.paint == u.paint
        }),
{
}

/// A detached window that is in view draws while the tube lives or its caret
/// flashes.
pub proof fn law_detached_draws_while_moving(u: DetachedUi, crt: bool)
    ensures
        !u.occluded && crt ==> u.animates(crt) && u.driven(crt).paint,
        !u.occluded && u.caret_anim is Some ==> u.animates(crt) && u.driven(crt).paint,
        !crt && u.caret_anim is None ==> !u.animates(crt) && u.driven(crt) == u,
{
}

/// A grid that is ready refits at once and notes when; one that is not waits.
pub proof fn law_ready_grid_refits(s: Stage, env: Env)
    ensures
        env.grid_ready ==> s.reflowed(env).due.reflow && s.reflowed(env).due.relink && s.reflowed(
            env,
        ).timers.reflow_resized_at == Some(env.now),
        !env.grid_ready ==> s.reflowed(env) == s,
{
}

/// A search is due while it is open and stale, three twentieths of a second
/// after the last one.
pub proof fn law_search_is_due(s: Stage, now: u64)
    ensures
        ({
            let rested = s.timers.search_refresh_at is None || now
                >= s.timers.search_refresh_at.unwrap() + 150_000_000;
            &&& s.ui.search_open && s.ui.search_dirty && rested ==> s.search_due(now)
            &&& !s.ui.search_open || !s.ui.search_dirty || !rested ==> !s.search_due(now)
        }),
{
}

/// A search that is due runs in the active tab, and is stale no longer.
pub proof fn law_due_search_runs(s: Stage, active: Option<u64>, now: u64)
    ensures
        s.search_due(now) && active is Some ==> s.search_step(active, now).due.search_refresh
            == active && !s.search_step(active, now).ui.search_dirty && s.search_step(
            active,
            now,
        ).timers.search_refresh_at == Some(now) && (s.on_screen() ==> s.search_step(
            active,
            now,
        ).due.paint_main),
        !s.search_due(now) || active is None ==> s.search_step(active, now) == s,
{
}

/// What has come is done: the grid refits, the window hides, the configuration
/// is read anew; what has not is left for its time.
pub proof fn law_come_deadlines_are_served(s: Stage, env: Env)
    ensures
        has_come(s.timers.reflow_pending_at, env.now) ==> s.reflow_step(
            env,
        ).timers.reflow_pending_at is None && s.reflow_step(env).due.paint_main && (env.grid_ready
            ==> s.reflow_step(env).due.reflow),
        !has_come(s.timers.reflow_pending_at, env.now) ==> s.reflow_step(env) == s,
        has_come(s.timers.pending_autohide_at, env.now) ==> s.autohide_step(
            env,
        ).timers.pending_autohide_at is None,
        !has_come(s.timers.pending_autohide_at, env.now) ==> s.autohide_step(env) == s,
        has_come(s.timers.pending_reload_at, env.now) ==> s.reload_step(env.now).due.reload
            && s.reload_step(env.now).timers.pending_reload_at is None,
        !has_come(s.timers.pending_reload_at, env.now) ==> s.reload_step(env.now) == s,
{
}

proof fn lemma_autohide_keeps(s: Stage, env: Env)
    ensures
        s.autohide_step(env).timers.pending_reload_at == s.timers.pending_reload_at,
        s.autohide_step(env).due.reload == s.due.reload,
        s.autohide_step(env).due.reflow == s.due.reflow,
        s.due.paint_main ==> s.autohide_step(env).due.paint_main,
        s.autohide_step(env).prefs == s.prefs,
{
}

proof fn lemma_reflow_keeps(s: Stage, env: Env)
    ensures
        s.reflow_step(env).timers.pending_reload_at == s.timers.pending_reload_at,
        s.reflow_step(env).due.reload == s.due.reload,
        s.due.paint_main ==> s.reflow_step(env).due.paint_main,
        s.reflow_step(env).prefs == s.prefs,
{
}

proof fn lemma_reflow_refits(s: Stage, env: Env)
    requires
        env.grid_ready,
        has_come(s.timers.reflow_pending_at, env.now),
    ensures
        s.reflow_step(env).due.reflow,
{
}

proof fn lemma_reload_keeps(s: Stage, now: u64)
    ensures
        s.reload_step(now).due.reflow == s.due.reflow,
        s.reload_step(now).due.paint_main == s.due.paint_main,
        s.reload_step(now).prefs == s.prefs,
{
}

/// A reload that has come is asked for when the deadlines are served.
pub proof fn law_service_reloads(s: Stage, synced: bool, env: Env)
    ensures
        (s.timers.pending_reload_at matches Some(d) && env.now >= d) ==> s.serviced(
            synced,
            env,
        ).due.reload,
        s.timers.pending_reload_at is None ==> s.serviced(synced, env).due.reload == s.due.reload,
        s.serviced(synced, env).prefs == s.prefs,
{
    reveal(Stage::serviced);
    let shown = Stage {
        due: Due { paint_main: s.due.paint_main || (synced && s.on_screen()), ..s.due },
        ..s
    };
    lemma_reflow_keeps(shown, env);
    lemma_autohide_keeps(shown.reflow_step(env), env);
    lemma_reload_keeps(shown.reflow_step(env).autohide_step(env), env.now);
}

/// A grid that waited long enough refits when the deadlines are served.
pub proof fn law_service_refits(s: Stage, synced: bool, env: Env)
    requires
        env.grid_ready,
        s.timers.reflow_pending_at is Some,
        env.now >= s.timers.reflow_pending_at.unwrap(),
    ensures
        s.serviced(synced, env).due.reflow,
{
    reveal(Stage::serviced);
    let shown = Stage {
        due: Due { paint_main: s.due.paint_main || (synced && s.on_screen()), ..s.due },
        ..s
    };
    lemma_reflow_refits(shown, env);
    lemma_autohide_keeps(shown.reflow_step(env), env);
    lemma_reload_keeps(shown.reflow_step(env).autohide_step(env), env.now);
}

/// Output that was held back is painted when its time has come, in a window in
/// view.
pub proof fn law_service_paints_held_output(s: Stage, env: Env)
    requires
        s.on_screen(),
    ensures
        s.serviced(true, env).due.paint_main,
{
    reveal(Stage::serviced);
    let shown = Stage { due: Due { paint_main: true, ..s.due }, ..s };
    assert(shown == Stage {
        due: Due { paint_main: s.due.paint_main || (true && s.on_screen()), ..s.due },
        ..s
    });
    lemma_reflow_keeps(shown, env);
    lemma_autohide_keeps(shown.reflow_step(env), env);
    lemma_reload_keeps(shown.reflow_step(env).autohide_step(env), env.now);
}

/// The settings draw until their time is up; the performance display waits to
/// say that the window rests.
pub proof fn law_pending_readings(s: Stage, now: u64)
    ensures
        s.presence.settings_window is None ==> !s.settings_pending(now),
        (s.timers.settings_paint_until matches Some(d) && now < d) && s.presence.settings_window
            is Some ==> s.settings_pending(now) && s.animated(now).due.paint_settings,
        s.timers.settings_paint_until is None || now >= s.timers.settings_paint_until.unwrap()
            ==> !s.settings_pending(now) && s.animated(now).due.paint_settings
            == s.due.paint_settings,
        s.self_driven() ==> s.animated(now).due.paint_main,
        s.prefs.show_perf_hud && !s.timers.perf_idle_shown && (s.timers.perf_idle_at matches Some(
            d,
        ) && now >= d) ==> s.animated(now).due.paint_main,
        !s.self_driven() && (!s.prefs.show_perf_hud || s.timers.perf_idle_shown
            || s.timers.perf_idle_at is None) ==> s.animated(now).due.paint_main
            == s.due.paint_main,
{
}

/// The loop sleeps no longer than to the refit, the hide, the reload, the next
/// search or the reading of the main window.
pub proof fn law_main_deadlines_wake(
    v: AppView,
    f: Flow,
    now: u64,
    tabs: Seq<Option<u64>>,
    windows: Seq<Option<u64>>,
    t: u64,
)
    requires
        v.is_flow(f, now, tabs, windows),
        !v.animates(now),
        ({
            let w = v.st.timers;
            ||| w.reflow_pending_at == Some(t)
            ||| w.pending_autohide_at == Some(t)
            ||| w.pending_reload_at == Some(t)
            ||| v.st.ui.search_open && v.st.ui.search_dirty && w.search_refresh_at is Some && t
                == w.search_refresh_at.unwrap() + 150_000_000
            ||| v.st.prefs.show_perf_hud && !w.perf_idle_shown && w.perf_idle_at == Some(t) && now
                < t
        }),
    ensures
        f matches Flow::WaitUntil(d) && d <= t,
{
    let due = v.deadlines(now, tabs, windows);
    let st = v.st.deadlines(now);
    assert(due[0] == st[0] && due[1] == st[1] && due[2] == st[2] && due[3] == st[3] && due[4]
        == st[4]);
    assert(exists|i: int| 0 <= i < due.len() && #[trigger] due[i] == Some(t));
}

/// The loop sleeps no longer than to the refit of a detached window, nor than
/// to output that a terminal holds back.
pub proof fn law_other_deadlines_wake(
    v: AppView,
    f: Flow,
    now: u64,
    tabs: Seq<Option<u64>>,
    windows: Seq<Option<u64>>,
    i: int,
    t: u64,
)
    requires
        v.is_flow(f, now, tabs, windows),
        !v.animates(now),
        ({
            ||| 0 <= i < v.detached.len() && v.detached[i].ui.reflow_pending_at == Some(t)
            ||| 0 <= i < tabs.len() && tabs[i] == Some(t) && now < t
            ||| 0 <= i < windows.len() && windows[i] == Some(t) && now < t
        }),
    ensures
        f matches Flow::WaitUntil(d) && d <= t,
{
    let due = v.deadlines(now, tabs, windows);
    let a = v.st.deadlines(now).len() as int;
    let b = a + v.detached.len();
    let c = b + tabs.len();
    if 0 <= i < v.detached.len() && v.detached[i].ui.reflow_pending_at == Some(t) {
        assert(due[a + i] == Some(t));
    } else if 0 <= i < tabs.len() && tabs[i] == Some(t) && now < t {
        assert(due[b + i] == Some(t));
    } else {
        assert(due[c + i] == Some(t));
    }
}

/// While anything moves the loop does not sleep, and only then.
pub proof fn law_moving_loop_polls(
    v: AppView,
    f: Flow,
    now: u64,
    tabs: Seq<Option<u64>>,
    windows: Seq<Option<u64>>,
)
    requires
        v.is_flow(f, now, tabs, windows),
    ensures
        v.st.self_driven() ==> f == Flow::Poll,
        v.st.settings_pending(now) ==> f == Flow::Poll,
        f == Flow::Poll ==> v.animates(now),
{
}

/// A turn of the loop serves every window and moves no tab.
pub proof fn law_turn_serves_windows(
    v: AppView,
    env: Env,
    tabs: Seq<Option<u64>>,
    windows: Seq<Option<u64>>,
    i: int,
)
    requires
        0 <= i < v.detached.len(),
        windows.len() == v.detached.len(),
    ensures
        ({
            let w = v.ticked(env, tabs, windows);
            &&& w.tabs == v.tabs && w.active == v.active && w.detached.len() == v.detached.len()
            &&& w.detached[i].tab == v.detached[i].tab && w.detached[i].window
                == v.detached[i].window
            &&& (windows[i] matches Some(d) && env.now >= d) && !v.detached[i].ui.occluded
                ==> w.detached[i].ui.paint
            &&& (v.detached[i].ui.reflow_pending_at matches Some(d) && env.now >= d)
                ==> w.detached[i].ui.reflow
            &&& 0 <= v.active < tabs.len() && (tabs[v.active] matches Some(d) && env.now >= d)
                && v.st.on_screen() ==> w.st.due.paint_main
        }),
{
    if 0 <= v.active < tabs.len() && (tabs[v.active] matches Some(d) && env.now >= d) {
        if v.st.on_screen() {
            law_service_paints_held_output(v.st, env);
        }
    }
}

/// Settling draws what moves and runs a due search, and changes nothing else.
pub proof fn law_settling_draws(v: AppView, now: u64, i: int)
    requires
        0 <= i < v.detached.len(),
    ensures
        ({
            let w = v.settled(now);
            &&& v.st.self_driven() ==> w.st.due.paint_main
            &&& v.detached[i].ui.animates(v.st.prefs.fx.crt_live()) ==> w.detached[i].ui.paint
            &&& v.st.search_due(now) && v.active_id() is Some ==> w.st.due.search_refresh
                == v.active_id()
            &&& w.tabs == v.tabs && w.st.prefs == v.st.prefs && w.detached[i].tab
                == v.detached[i].tab
        }),
{
}

/// The loop wakes for nothing that is not pending: with no refit, no hide, no
/// reload, no stale search, no reading, no window that refits and no output
/// held back it sleeps until something happens.
pub proof fn law_nothing_pending_sleeps(
    v: AppView,
    f: Flow,
    now: u64,
    tabs: Seq<Option<u64>>,
    windows: Seq<Option<u64>>,
)
    requires
        v.is_flow(f, now, tabs, windows),
        !v.animates(now),
        v.st.timers.reflow_pending_at is None,
        v.st.timers.pending_autohide_at is None,
        v.st.timers.pending_reload_at is None,
        !v.st.ui.search_open || !v.st.ui.search_dirty || v.st.timers.search_refresh_at is None,
        !v.st.prefs.show_perf_hud || v.st.timers.perf_idle_shown || v.st.timers.perf_idle_at
            is None,
        v.detached.len() == 0,
        tabs.len() == 0,
        windows.len() == 0,
    ensures
        f == Flow::Wait,
{
    let due = v.deadlines(now, tabs, windows);
    let st = v.st.deadlines(now);
    assert(due =~= st);
    assert forall|i: int| 0 <= i < due.len() implies #[trigger] due[i] is None by {
        assert(st[i] is None);
    }
}

} // verus!
