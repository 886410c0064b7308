//! What a frame does besides drawing: countdowns, expiring animations, the
//! choice of passes and whether another frame follows.

use vstd::prelude::*;

use crate::hints::shift_hint_live_in;
use crate::mode::WindowMode;
use crate::presence::LAST_INSTANT;
use crate::state::{
    hint_view, tab_views, App, AppView, DetachedUi, Due, Overlays, Palette, Stage, Tab,
    TabActivity, TabView, Timers,
};
use crate::tabs::{lemma_keep, lemma_narrow_trans, lemma_wf_frame, lemma_wf_narrow};

verus! {

/// How long the docked window slides in, in nanoseconds.
pub const SLIDE_TIME: u64 = 150_000_000;

/// This long after the last busy frame the performance display says "idle", in
/// nanoseconds.
pub const IDLE_DELAY: u64 = 700_000_000;

impl Stage {
    /// A docked window is docked again for a few frames after it was mapped; a
    /// window that stopped docking is left alone.
    #[verifier::opaque]
    pub open spec fn dock_counted(self) -> Stage {
        let n = self.timers.pending_dock_frames;
        if n == 0 {
            self
        } else if self.prefs.window_mode != WindowMode::Dropdown {
            Stage { timers: Timers { pending_dock_frames: 0, ..self.timers }, ..self }
        } else {
            let exists = self.presence.main_window is Some;
            Stage {
                timers: Timers { pending_dock_frames: (n - 1) as u8, ..self.timers },
                due: Due {
                    redock: self.due.redock || exists,
                    paint_main: self.due.paint_main || (exists && n > 1),
                    ..self.due
                },
                ..self
            }
        }
    }

    fn count_dock(self) -> (r: Stage)
        ensures
            r == self.dock_counted(),
    {
        proof {
            reveal(Stage::dock_counted);
        }
        let n: u8 = self.timers.pending_dock_frames;
        if n == 0 {
            return self;
        }
        if self.prefs.window_mode != WindowMode::Dropdown {
            return Stage { timers: Timers { pending_dock_frames: 0, ..self.timers }, ..self };
        }
        let exists: bool = self.presence.main_window.is_some();
        Stage {
            timers: Timers { pending_dock_frames: n - 1, ..self.timers },
            due: Due {
                redock: self.due.redock || exists,
                paint_main: self.due.paint_main || (exists && n > 1),
                ..self.due
            },
            ..self
        }
    }

    /// Where a floating window is put again for a few frames after it was
    /// mapped.
    pub open spec fn replaces(self) -> Option<(i32, i32)> {
        if self.timers.pending_center_frames > 0 && self.prefs.window_mode == WindowMode::Center
            && self.presence.main_window is Some {
            self.presence.pending_center_pos
        } else {
            None
        }
    }

    /// The countdown of that.
    #[verifier::opaque]
    pub open spec fn center_counted(self) -> Stage {
        let n = self.timers.pending_center_frames;
        if n == 0 {
            self
        } else if self.prefs.window_mode != WindowMode::Center {
            Stage { timers: Timers { pending_center_frames: 0, ..self.timers }, ..self }
        } else {
            Stage {
                timers: Timers { pending_center_frames: (n - 1) as u8, ..self.timers },
                due: Due {
                    paint_main: self.due.paint_main || (self.replaces() is Some && n > 1),
                    ..self.due
                },
                ..self
            }
        }
    }

    fn replace(self) -> (r: Option<(i32, i32)>)
        ensures
            r == self.replaces(),
    {
        if self.timers.pending_center_frames > 0 && self.prefs.window_mode == WindowMode::Center
            && self.presence.main_window.is_some() {
            self.presence.pending_center_pos
        } else {
            None
        }
    }

    fn count_center(self) -> (r: Stage)
        ensures
            r == self.center_counted(),
    {
        proof {
            reveal(Stage::center_counted);
        }
        let n: u8 = self.timers.pending_center_frames;
        if n == 0 {
            return self;
        }
        if self.prefs.window_mode != WindowMode::Center {
            return Stage { timers: Timers { pending_center_frames: 0, ..self.timers }, ..self };
        }
        let placed: bool = self.replace().is_some();
        Stage {
            timers: Timers { pending_center_frames: n - 1, ..self.timers },
            due: Due { paint_main: self.due.paint_main || (placed && n > 1), ..self.due },
            ..self
        }
    }

    /// The clock of the summon effect starts with the first real frame.
    #[verifier::opaque]
    pub open spec fn summon_started(self, now: u64) -> Stage {
        if self.timers.summon_pending {
            Stage {
                timers: Timers {
                    summon_pending: false,
                    summon_anim: Some(now),
                    ..self.timers
                },
                ..self
            }
        } else {
            self
        }
    }

    fn start_summon(self, now: u64) -> (r: Stage)
        ensures
            r == self.summon_started(now),
    {
        proof {
            reveal(Stage::summon_started);
        }
        if self.timers.summon_pending {
            Stage {
                timers: Timers {
                    summon_pending: false,
                    summon_anim: Some(now),
                    ..self.timers
                },
                ..self
            }
        } else {
            self
        }
    }

    /// What every frame of a shown window begins with.
    pub open spec fn frame_begun(self, now: u64) -> Stage {
        self.dock_counted().center_counted().summon_started(now)
    }

    /// Output makes stored matches stale; they are searched for again, but not
    /// too often. `active` is the active tab.
    #[verifier::opaque]
    pub open spec fn search_followed(self, had: bool, active: Option<u64>, now: u64) -> Stage {
        let s = Stage {
            ui: Overlays {
                search_dirty: self.ui.search_dirty || (had && self.ui.search_open),
                ..self.ui
            },
            ..self
        };
        if s.search_due(now) {
            Stage {
                ui: Overlays { search_dirty: false, ..s.ui },
                timers: Timers { search_refresh_at: Some(now), ..s.timers },
                due: Due { search_refresh: active, ..s.due },
                ..s
            }
        } else {
            s
        }
    }

    fn follow_search(self, had: bool, active: Option<u64>, now: u64) -> (r: Stage)
        ensures
            r == self.search_followed(had, active, now),
    {
        proof {
            reveal(Stage::search_followed);
        }
        let s: Stage = Stage {
            ui: Overlays {
                search_dirty: self.ui.search_dirty || (had && self.ui.search_open),
                ..self.ui
            },
            ..self
        };
        if s.is_search_due(now) {
            Stage {
                ui: Overlays { search_dirty: false, ..s.ui },
                timers: Timers { search_refresh_at: Some(now), ..s.timers },
                due: Due { search_refresh: active, ..s.due },
                ..s
            }
        } else {
            s
        }
    }

    /// The performance display is to say "idle": no frame came for a while.
    pub open spec fn says_idle(self, now: u64) -> bool {
        self.prefs.show_perf_hud && !self.timers.perf_idle_shown && (self.timers.perf_idle_at
            matches Some(t) && now >= t)
    }

    /// The display says "idle", or the wait for that starts anew.
    #[verifier::opaque]
    pub open spec fn hud_ticked(self, now: u64) -> Stage {
        if self.says_idle(now) {
            Stage { timers: Timers { perf_idle_shown: true, ..self.timers }, ..self }
        } else if self.prefs.show_perf_hud {
            Stage {
                timers: Timers {
                    perf_idle_at: Some((now + IDLE_DELAY) as u64),
                    perf_idle_shown: false,
                    ..self.timers
                },
                ..self
            }
        } else {
            self
        }
    }

    fn tick_hud(self, now: u64) -> (r: (Stage, bool))
        requires
            now <= LAST_INSTANT,
        ensures
            r.0 == self.hud_ticked(now),
            r.1 == self.says_idle(now),
    {
        proof {
            reveal(Stage::hud_ticked);
        }
        let due: bool = match self.timers.perf_idle_at {
            Some(t) => now >= t,
            None => false,
        };
        if self.prefs.show_perf_hud && !self.timers.perf_idle_shown && due {
            (Stage { timers: Timers { perf_idle_shown: true, ..self.timers }, ..self }, true)
        } else if self.prefs.show_perf_hud {
            (
                Stage {
                    timers: Timers {
                        perf_idle_at: Some(now + IDLE_DELAY),
                        perf_idle_shown: false,
                        ..self.timers
                    },
                    ..self
                },
                false,
            )
        } else {
            (self, false)
        }
    }
}

/// What a frame begins with.
#[derive(Debug, Clone, Copy)]
pub struct FrameStart {
    /// The frame is drawn at all.
    pub draw: bool,
    /// Where to put the window first.
    pub place: Option<(i32, i32)>,
}

impl AppView {
    /// Hint mode and copy mode end when a program takes the whole screen.
    #[verifier::opaque]
    pub open spec fn modes_left(self, alt_screen: bool) -> AppView {
        if alt_screen && self.tabs.len() > 0 && (self.hint is Some || self.st.ui.copy_mode
            is Some) {
            let s = if self.st.ui.copy_mode is Some {
                self.st.clear_selection(self.active_id())
            } else {
                self.st
            };
            AppView {
                hint: None,
                st: Stage { ui: Overlays { copy_mode: None, ..s.ui }, ..s },
                ..self
            }
        } else {
            self
        }
    }

    /// A frame of the main window begins; a hidden window draws none.
    pub open spec fn frame_begun(self, alt_screen: bool, now: u64) -> AppView {
        if !self.st.presence.visible {
            self
        } else {
            let v = self.modes_left(alt_screen);
            AppView { st: v.st.frame_begun(now), ..v }
        }
    }

    /// The active tab is on the screen: its indicator is seen.
    pub open spec fn activity_seen(self) -> AppView {
        if 0 <= self.active < self.tabs.len() {
            AppView {
                tabs: self.tabs.update(
                    self.active,
                    TabView { activity: TabActivity::Idle, ..self.tabs[self.active] },
                ),
                ..self
            }
        } else {
            self
        }
    }
}

proof fn lemma_begun_keep(s: Stage, now: u64)
    ensures
        s.narrows_to(s.frame_begun(now)),
{
    let a = s.dock_counted();
    let b = a.center_counted();
    let c = b.summon_started(now);
    assert(s.narrows_to(a)) by {
        reveal(Stage::dock_counted);
        lemma_keep(s, a);
    }
    assert(a.narrows_to(b)) by {
        reveal(Stage::center_counted);
        lemma_keep(a, b);
    }
    assert(b.narrows_to(c)) by {
        reveal(Stage::summon_started);
        lemma_keep(b, c);
    }
    lemma_narrow_trans(s, a, b);
    lemma_narrow_trans(s, b, c);
}

proof fn lemma_modes_left_wf(v: AppView, alt_screen: bool)
    requires
        v.wf(),
    ensures
        v.modes_left(alt_screen).wf(),
{
    reveal(AppView::modes_left);
}

fn see_activity(tabs: &mut Vec<Tab>, i: usize)
    requires
        i < old(tabs)@.len(),
    ensures
        tab_views(final(tabs)@) == tab_views(old(tabs)@).update(
            i as int,
            TabView { activity: TabActivity::Idle, ..tab_views(old(tabs)@)[i as int] },
        ),
{
    let ghost v = tab_views(tabs@);
    tabs[i].activity = TabActivity::Idle;
    proof {
        assert(tab_views(tabs@) =~= v.update(
            i as int,
            TabView { activity: TabActivity::Idle, ..v[i as int] },
        ));
    }
}

impl App {
    fn leave_modes(&mut self, alt_screen: bool)
        requires
            old(self)@.wf(),
        ensures
            final(self)@ == old(self)@.modes_left(alt_screen),
            final(self)@.wf(),
    {
        proof {
            lemma_modes_left_wf(self@, alt_screen);
            reveal(AppView::modes_left);
            reveal(hint_view);
        }
        if !(alt_screen && self.tabs.len() > 0 && (self.hint.is_some()
            || self.st.ui.copy_mode.is_some())) {
            return;
        }
        let id: Option<u64> = self.active_tab_id();
        let s: Stage = if self.st.ui.copy_mode.is_some() {
            self.st.clear_selection(id)
        } else {
            self.st
        };
        self.hint = None;
        self.st = Stage { ui: Overlays { copy_mode: None, ..s.ui }, ..s };
    }

    /// Begins a frame of the main window; `alt_screen` tells that a program
    /// has taken the whole screen.
    pub fn begin_frame(&mut self, alt_screen: bool, now: u64) -> (r: FrameStart)
        requires
            old(self)@.wf(),
        ensures
            final(self)@ == old(self)@.frame_begun(alt_screen, now),
            r.draw == old(self)@.st.presence.visible,
            r.place == if r.draw {
                old(self)@.modes_left(alt_screen).st.dock_counted().replaces()
            } else {
                None
            },
            final(self)@.wf(),
    {
        if !self.st.presence.visible {
            return FrameStart { draw: false, place: None };
        }
        self.leave_modes(alt_screen);
        proof {
            lemma_begun_keep(self@.st, now);
            lemma_wf_narrow(self@, self@.st.frame_begun(now));
        }
        let docked: Stage = self.st.count_dock();
        let place: Option<(i32, i32)> = docked.replace();
        self.st = docked.count_center().start_summon(now);
        FrameStart { draw: true, place }
    }

    /// Goes on with a frame once the terminals were drained; `had` tells that
    /// the active one brought output. Tells whether the performance display
    /// says "idle".
    pub fn frame_drained(&mut self, had: bool, now: u64) -> (r: bool)
        requires
            old(self)@.wf(),
            now <= LAST_INSTANT,
        ensures
            ({
                let v = old(self)@;
                let s = v.st.search_followed(had, v.active_id(), now);
                &&& final(self)@ == (AppView { st: s.hud_ticked(now), ..v }).activity_seen()
                &&& r == s.says_idle(now)
            }),
            final(self)@.wf(),
    {
        let id: Option<u64> = self.active_tab_id();
        proof {
            lemma_drained_wf(self@, had, id, now);
        }
        let s: Stage = self.st.follow_search(had, id, now);
        let (t, idle): (Stage, bool) = s.tick_hud(now);
        self.st = t;
        if self.active < self.tabs.len() {
            see_activity(&mut self.tabs, self.active);
        }
        idle
    }
}

proof fn lemma_drained_wf(v: AppView, had: bool, id: Option<u64>, now: u64)
    requires
        v.wf(),
    ensures
        (AppView {
            st: v.st.search_followed(had, id, now).hud_ticked(now),
            ..v
        }).activity_seen().wf(),
{
    let a = v.st.search_followed(had, id, now);
    let b = a.hud_ticked(now);
    assert(v.st.narrows_to(a)) by {
        reveal(Stage::search_followed);
        crate::tabs::lemma_narrow(v.st, a);
    }
    assert(a.narrows_to(b)) by {
        reveal(Stage::hud_ticked);
        lemma_keep(a, b);
    }
    lemma_narrow_trans(v.st, a, b);
    lemma_wf_narrow(v, b);
    let w = AppView { st: b, ..v };
    assert(w.st.same_indices(w.st)) by {
        reveal(Stage::same_indices);
    }
    lemma_wf_frame(w, w.activity_seen());
}

/// A hidden window draws nothing and changes nothing.
pub proof fn law_hidden_frame_is_free(v: AppView, alt_screen: bool, now: u64)
    requires
        !v.st.presence.visible,
    ensures
        v.frame_begun(alt_screen, now) == v,
{
}

/// The countdowns run out: after as many frames as they count, a shown window
/// is neither docked nor put anywhere again.
pub proof fn law_countdown_runs_out(s: Stage)
    ensures
        s.timers.pending_dock_frames > 0 ==> s.dock_counted().timers.pending_dock_frames
            < s.timers.pending_dock_frames,
        s.timers.pending_center_frames > 0 ==> s.center_counted().timers.pending_center_frames
            < s.timers.pending_center_frames,
        s.timers.pending_dock_frames == 0 ==> s.dock_counted() == s,
        s.timers.pending_center_frames == 0 ==> s.center_counted() == s,
{
    reveal(Stage::dock_counted);
    reveal(Stage::center_counted);
}

/// Which passes a frame of the main window takes through the texture beside
/// the surface.
#[derive(Debug, Clone, Copy, PartialEq, Eq, Structural)]
pub struct Routing {
    /// A summon effect that bends the whole scene reads the texture.
    pub tier_b: bool,
    /// The screen effect reads the texture, and rounds the corners itself.
    pub crt: bool,
}

impl Stage {
    /// The texture beside the surface is needed.
    pub open spec fn wants_texture(self) -> bool {
        self.prefs.fx.crt_enabled || (self.prefs.summon_effect.bends()
            && self.timers.summon_anim is Some)
    }

    /// Whether the texture beside the surface is needed.
    pub fn wants_offscreen(self) -> (r: bool)
        ensures
            r == self.wants_texture(),
    {
        self.prefs.fx.crt_enabled || (self.prefs.summon_effect.is_tier_b()
            && self.timers.summon_anim.is_some())
    }

    /// The passes of a frame; `texture` tells that the texture is there.
    pub open spec fn routes_frame(self, texture: bool, now: u64) -> Routing {
        let tier_b = self.prefs.summon_effect.bends() && self.summons(now) && texture;
        Routing { tier_b, crt: self.prefs.fx.crt_enabled && !tier_b && texture }
    }

    /// Chooses the passes of a frame.
    pub fn routing(self, texture: bool, now: u64) -> (r: Routing)
        ensures
            r == self.routes_frame(texture, now),
    {
        let tier_b: bool = self.prefs.summon_effect.is_tier_b() && self.is_summoning(now)
            && texture;
        Routing { tier_b, crt: self.prefs.fx.crt_enabled && !tier_b && texture }
    }

    /// The summon effect is still running.
    pub open spec fn summons(self, now: u64) -> bool {
        self.timers.summon_anim matches Some(t) && now < t + self.prefs.summon_effect.millis()
            * 1_000_000
    }

    /// Whether the summon effect is still running.
    pub fn is_summoning(self, now: u64) -> (r: bool)
        ensures
            r == self.summons(now),
    {
        match self.timers.summon_anim {
            Some(t) => now < t || now - t < self.prefs.summon_effect.duration_ms() * 1_000_000,
            None => false,
        }
    }

    /// The slide of the docked window is over.
    pub open spec fn slid(self, now: u64) -> bool {
        self.timers.slide_anim matches Some(t) && now >= t + SLIDE_TIME
    }

    /// Animations whose time is over end with the frame that was presented.
    #[verifier::opaque]
    pub open spec fn expired(self, now: u64) -> Stage {
        Stage {
            timers: Timers {
                summon_anim: if self.summons(now) {
                    self.timers.summon_anim
                } else {
                    None
                },
                slide_anim: if self.slid(now) {
                    None
                } else {
                    self.timers.slide_anim
                },
                ..self.timers
            },
            ..self
        }
    }

    fn expire(self, now: u64) -> (r: Stage)
        ensures
            r == self.expired(now),
    {
        proof {
            reveal(Stage::expired);
        }
        let summon_anim: Option<u64> = if self.is_summoning(now) {
            self.timers.summon_anim
        } else {
            None
        };
        let slide_anim: Option<u64> = match self.timers.slide_anim {
            Some(t) => if now >= t && now - t >= SLIDE_TIME {
                None
            } else {
                Some(t)
            },
            None => None,
        };
        Stage { timers: Timers { summon_anim, slide_anim, ..self.timers }, ..self }
    }

    /// Something keeps the main window drawing after this frame.
    pub open spec fn drives_on(self, now: u64) -> bool {
        ||| self.timers.summon_anim is Some
        ||| self.timers.slide_anim is Some
        ||| self.presence.main_window matches Some(w) && crate::hints::hint_live(
            self.pointer.shift_hint_until,
            w,
            now,
        )
        ||| self.presence.visible && self.prefs.fx.crt_live()
        ||| self.timers.caret_anim is Some
    }

    fn is_driving_on(self, now: u64) -> (r: bool)
        ensures
            r == self.drives_on(now),
    {
        let hint: bool = match self.presence.main_window {
            Some(w) => shift_hint_live_in(self.pointer.shift_hint_until, w, now),
            None => false,
        };
        self.timers.summon_anim.is_some() || self.timers.slide_anim.is_some() || hint || (
        self.presence.visible && self.prefs.fx.crt_anim_live()) || self.timers.caret_anim.is_some()
    }

    /// The caret's flash ends where `over`.
    #[verifier::opaque]
    pub open spec fn caret_expired(self, over: bool) -> Stage {
        Stage {
            timers: Timers {
                caret_anim: if over {
                    None
                } else {
                    self.timers.caret_anim
                },
                ..self.timers
            },
            ..self
        }
    }

    fn expire_caret(self, over: bool) -> (r: Stage)
        ensures
            r == self.caret_expired(over),
    {
        proof {
            reveal(Stage::caret_expired);
        }
        let caret_anim: Option<u64> = if over {
            None
        } else {
            self.timers.caret_anim
        };
        Stage { timers: Timers { caret_anim, ..self.timers }, ..self }
    }

    /// A frame of the main window ended; `presented` tells that it reached the
    /// screen, and `caret_over` that the caret's flash is over. Another frame
    /// follows while something still moves.
    #[verifier::opaque]
    pub open spec fn frame_ended(self, presented: bool, caret_over: bool, now: u64) -> Stage {
        let s = self.caret_expired(caret_over);
        if !presented {
            s
        } else {
            let e = s.expired(now);
            Stage {
                due: Due {
                    paint_main: e.due.paint_main || (e.presence.main_window is Some && e.drives_on(
                        now,
                    )),
                    ..e.due
                },
                ..e
            }
        }
    }

    fn end_frame(self, presented: bool, caret_over: bool, now: u64) -> (r: Stage)
        ensures
            r == self.frame_ended(presented, caret_over, now),
    {
        proof {
            reveal(Stage::frame_ended);
        }
        let s: Stage = self.expire_caret(caret_over);
        if !presented {
            return s;
        }
        let e: Stage = s.expire(now);
        let on: bool = e.presence.main_window.is_some() && e.is_driving_on(now);
        Stage { due: Due { paint_main: e.due.paint_main || on, ..e.due }, ..e }
    }

    /// The welcome text is drawn: no menu, popup, help text or palette is open.
    pub fn draws_welcome(self) -> (r: bool)
        ensures
            r == (self.ui.welcome_open && !self.ui.context_menu && !self.ui.help_open
                && self.ui.confirm_close is None && !self.ui.confirm_quit && !self.ui.palette_open),
    {
        self.ui.welcome_open && !self.ui.context_menu && !self.ui.help_open
            && self.ui.confirm_close.is_none() && !self.ui.confirm_quit && !self.ui.palette_open
    }

    /// The help text is drawn, unless the palette lies over it.
    pub fn draws_help(self) -> (r: bool)
        ensures
            r == (self.ui.help_open && !self.ui.palette_open),
    {
        self.ui.help_open && !self.ui.palette_open
    }

    /// The upper corners are square: a docked window stands at the monitor's
    /// top edge.
    pub fn is_top_flush(self, y: i32, monitor_top: i32) -> (r: bool)
        ensures
            r == (self.prefs.window_mode == WindowMode::Dropdown && y <= monitor_top + 1),
    {
        self.prefs.window_mode == WindowMode::Dropdown && y as i64 <= monitor_top as i64 + 1
    }
}

impl DetachedUi {
    /// The caret's flash ends where `over`.
    pub open spec fn caret_expired(self, over: bool) -> DetachedUi {
        DetachedUi {
            caret_anim: if over {
                None
            } else {
                self.caret_anim
            },
            ..self
        }
    }

    /// A frame of the detached window did not reach the screen: a flash of the
    /// caret that is over ends all the same, and nothing is asked for.
    pub fn frame_missed(self, caret_over: bool) -> (r: DetachedUi)
        ensures
            r == self.caret_expired(caret_over),
    {
        let caret_anim: Option<u64> = if caret_over {
            None
        } else {
            self.caret_anim
        };
        DetachedUi { caret_anim, ..self }
    }

    /// A frame of the detached window was presented; `hinted` tells that the
    /// hint on Shift+drag shows in it. Another frame follows while something
    /// still moves.
    pub fn frame_presented(self, caret_over: bool, crt: bool, hinted: bool) -> (r: DetachedUi)
        ensures
            r == ({
                let e = self.caret_expired(caret_over);
                DetachedUi {
                    paint: e.paint || (!e.occluded && (e.caret_anim is Some || crt || hinted)),
                    ..e
                }
            }),
    {
        let e: DetachedUi = self.frame_missed(caret_over);
        let on: bool = !e.occluded && (e.caret_anim.is_some() || crt || hinted);
        DetachedUi { paint: e.paint || on, ..e }
    }
}

proof fn lemma_ended_keep(s: Stage, presented: bool, caret_over: bool, now: u64)
    ensures
        s.narrows_to(s.frame_ended(presented, caret_over, now)),
{
    let a = s.caret_expired(caret_over);
    let b = a.expired(now);
    let c = s.frame_ended(presented, caret_over, now);
    assert(s.narrows_to(a)) by {
        reveal(Stage::caret_expired);
        lemma_keep(s, a);
    }
    assert(a.narrows_to(b)) by {
        reveal(Stage::expired);
        lemma_keep(a, b);
    }
    lemma_narrow_trans(s, a, b);
    reveal(Stage::frame_ended);
    if presented {
        lemma_keep(b, c);
        lemma_narrow_trans(s, b, c);
    }
}

impl App {
    /// Ends a frame of the main window.
    pub fn frame_done(&mut self, presented: bool, caret_over: bool, now: u64)
        requires
            old(self)@.wf(),
        ensures
            final(self)@ == (AppView {
                st: old(self)@.st.frame_ended(presented, caret_over, now),
                ..old(self)@
            }),
            final(self)@.wf(),
    {
        proof {
            lemma_ended_keep(self@.st, presented, caret_over, now);
            lemma_wf_narrow(self@, self@.st.frame_ended(presented, caret_over, now));
        }
        self.st = self.st.end_frame(presented, caret_over, now);
    }
}

impl Palette {
    /// The rows that show, from the first to before the last.
    pub fn visible_rows(&self) -> (r: (usize, usize))
        ensures
            r.0 == if self@.scroll <= self@.hits.len() {
                self@.scroll
            } else {
                self@.hits.len() as int
            },
            r.1 == if self@.hits.len() <= self@.scroll + self@.rows {
                self@.hits.len() as int
            } else {
                self@.scroll + self@.rows
            },
    {
        let n: usize = self.hits.len();
        let rows: usize = self.rows as usize;
        if n < self.scroll {
            (n, n)
        } else if n - self.scroll <= rows {
            (self.scroll, n)
        } else {
            (self.scroll, self.scroll + rows)
        }
    }
}

/// The texture is read by one pass at most: an effect that bends the scene
/// keeps the screen effect out.
pub proof fn law_one_reader(s: Stage, texture: bool, now: u64)
    ensures
        !(s.routes_frame(texture, now).tier_b && s.routes_frame(texture, now).crt),
        !texture ==> !s.routes_frame(texture, now).tier_b && !s.routes_frame(texture, now).crt,
{
}

/// A pass that reads the texture finds it wanted.
pub proof fn law_reader_has_texture(s: Stage, texture: bool, now: u64)
    requires
        s.routes_frame(texture, now).tier_b || s.routes_frame(texture, now).crt,
    ensures
        s.wants_texture(),
{
}

/// Frames stop: once the animations' time is over and no effect moves, a frame
/// asks for no other one.
pub proof fn law_frames_stop(s: Stage, now: u64)
    requires
        !s.summons(now),
        s.timers.slide_anim is Some ==> s.slid(now),
        s.pointer.shift_hint_until is None,
        !s.prefs.fx.crt_live(),
        !s.due.paint_main,
    ensures
        !s.frame_ended(true, true, now).due.paint_main,
{
    reveal(Stage::frame_ended);
    reveal(Stage::caret_expired);
    reveal(Stage::expired);
}

/// The selected command of the palette is one of the rows that show.
pub proof fn law_selection_is_drawn(v: AppView)
    requires
        v.wf(),
        v.palette.hits.len() > 0,
    ensures
        v.palette.scroll <= v.palette.selected < v.palette.scroll + v.palette.rows,
        v.palette.selected < v.palette.hits.len(),
{
}

/// A dropdown window that was docked is docked again with each of the next
/// frames; a floating one is not.
pub proof fn law_docking_repeats(s: Stage)
    requires
        s.timers.pending_dock_frames > 0,
    ensures
        s.prefs.window_mode == WindowMode::Dropdown ==> s.dock_counted().timers.pending_dock_frames
            == s.timers.pending_dock_frames - 1,
        s.prefs.window_mode == WindowMode::Dropdown && s.presence.main_window is Some
            ==> s.dock_counted().due.redock,
        s.prefs.window_mode == WindowMode::Dropdown && s.presence.main_window is Some
            && s.timers.pending_dock_frames > 1 ==> s.dock_counted().due.paint_main,
        s.prefs.window_mode == WindowMode::Center ==> s.dock_counted().timers.pending_dock_frames
            == 0 && s.dock_counted().due == s.due,
{
    reveal(Stage::dock_counted);
}

/// A floating window is put back where it was with each of the next frames, as
/// long as that place is known; a dropdown one is not.
pub proof fn law_centering_repeats(s: Stage)
    requires
        s.timers.pending_center_frames > 0,
    ensures
        s.prefs.window_mode == WindowMode::Center
            ==> s.center_counted().timers.pending_center_frames
            == s.timers.pending_center_frames - 1,
        s.prefs.window_mode == WindowMode::Center && s.presence.main_window is Some ==> s.replaces()
            == s.presence.pending_center_pos,
        s.prefs.window_mode == WindowMode::Center && s.presence.main_window is Some
            && s.presence.pending_center_pos is Some && s.timers.pending_center_frames > 1
            ==> s.center_counted().due.paint_main,
        s.prefs.window_mode == WindowMode::Dropdown
            ==> s.center_counted().timers.pending_center_frames == 0 && s.replaces() is None,
        s.center_counted().presence == s.presence,
{
    reveal(Stage::center_counted);
}

/// A window is only put back while frames are counted.
pub proof fn law_no_centering_without_count(s: Stage)
    ensures
        s.timers.pending_center_frames == 0 ==> s.replaces() is None,
        s.presence.main_window is None ==> s.replaces() is None,
{
}

/// The summon effect starts with the first frame after it was asked for, at
/// that frame's time.
pub proof fn law_summon_starts_with_a_frame(s: Stage, now: u64)
    ensures
        s.timers.summon_pending ==> s.summon_started(now).timers.summon_anim == Some(now)
            && !s.summon_started(now).timers.summon_pending,
        !s.timers.summon_pending ==> s.summon_started(now) == s,
{
    reveal(Stage::summon_started);
}

/// A frame counts, starts and no more: its time is that of a started effect.
pub proof fn law_frame_starts_the_summon(s: Stage, now: u64)
    requires
        s.timers.summon_pending,
    ensures
        s.frame_begun(now).timers.summon_anim == Some(now),
        !s.frame_begun(now).timers.summon_pending,
        s.frame_begun(now).prefs == s.prefs,
{
    reveal(Stage::dock_counted);
    reveal(Stage::center_counted);
    reveal(Stage::summon_started);
}

/// Output under an open search has it searched anew, at most once in three
/// twentieths of a second; what was put off stays due.
pub proof fn law_search_follows_output(s: Stage, had: bool, active: Option<u64>, now: u64)
    ensures
        ({
            let r = s.search_followed(had, active, now);
            let wanted = s.ui.search_open && (had || s.ui.search_dirty);
            let rested = s.timers.search_refresh_at is None || now
                >= s.timers.search_refresh_at.unwrap() + 150_000_000;
            &&& wanted && rested ==> r.due.search_refresh == active && !r.ui.search_dirty
                && r.timers.search_refresh_at == Some(now)
            &&& wanted && !rested ==> r.ui.search_dirty && r.due == s.due && r.timers == s.timers
            &&& !wanted ==> r.due == s.due && r.timers == s.timers
            &&& r.ui.search_open == s.ui.search_open
        }),
{
    reveal(Stage::search_followed);
}

/// The performance display says that the window rests seven tenths of a second
/// after its last frame, once.
pub proof fn law_display_comes_to_rest(s: Stage, now: u64)
    requires
        now <= crate::presence::LAST_INSTANT,
    ensures
        ({
            let due = s.timers.perf_idle_at is Some && now >= s.timers.perf_idle_at.unwrap();
            let r = s.hud_ticked(now);
            &&& !s.prefs.show_perf_hud ==> r == s && !s.says_idle(now)
            &&& s.prefs.show_perf_hud && due && !s.timers.perf_idle_shown ==> s.says_idle(now)
                && r.timers.perf_idle_shown && r.timers.perf_idle_at == s.timers.perf_idle_at
            &&& s.prefs.show_perf_hud && (!due || s.timers.perf_idle_shown) ==> !s.says_idle(now)
                && !r.timers.perf_idle_shown && r.timers.perf_idle_at == Some(
                (now + 700_000_000) as u64,
            )
        }),
{
    reveal(Stage::hud_ticked);
}

/// A program that takes the whole screen ends hint and copy mode, with what the
/// latter selected.
pub proof fn law_full_screen_ends_modes(v: AppView, alt_screen: bool)
    requires
        v.tabs.len() > 0,
    ensures
        alt_screen ==> v.modes_left(alt_screen).hint is None && v.modes_left(
            alt_screen,
        ).st.ui.copy_mode is None,
        alt_screen && v.st.ui.copy_mode is Some ==> v.modes_left(alt_screen).st.due.selection_clear
            == v.active_id(),
        alt_screen && v.st.ui.copy_mode is None ==> v.modes_left(alt_screen).st.due == v.st.due,
        !alt_screen ==> v.modes_left(alt_screen) == v,
{
    reveal(AppView::modes_left);
}

/// What the active tab wrote has been seen once it is drawn, and only there.
pub proof fn law_drawn_activity_is_seen(v: AppView, i: int)
    requires
        0 <= v.active < v.tabs.len(),
        0 <= i < v.tabs.len(),
    ensures
        v.activity_seen().tabs[v.active].activity == TabActivity::Idle,
        v.activity_seen().tabs[v.active].id == v.tabs[v.active].id,
        v.activity_seen().tabs[v.active].title == v.tabs[v.active].title,
        i != v.active ==> v.activity_seen().tabs[i] == v.tabs[i],
        v.activity_seen().tabs.len() == v.tabs.len(),
        v.activity_seen().st == v.st,
{
}

/// The slide takes three twentieths of a second, the summon effect as long as
/// it is given.
pub proof fn law_animations_end(s: Stage, now: u64)
    ensures
        (s.timers.slide_anim matches Some(t) && now < t + 150_000_000) ==> s.expired(
            now,
        ).timers.slide_anim == s.timers.slide_anim,
        (s.timers.slide_anim matches Some(t) && now >= t + 150_000_000) ==> s.expired(
            now,
        ).timers.slide_anim is None,
        (s.timers.summon_anim matches Some(t) && now < t + s.prefs.summon_effect.millis()
            * 1_000_000) ==> s.expired(now).timers.summon_anim == s.timers.summon_anim,
        (s.timers.summon_anim matches Some(t) && now >= t + s.prefs.summon_effect.millis()
            * 1_000_000) ==> s.expired(now).timers.summon_anim is None,
        s.expired(now).timers.caret_anim == s.timers.caret_anim,
{
    reveal(Stage::expired);
}

/// A presented frame is followed by another while anything moves: an effect,
/// the slide, the caret, a live tube, or the hint of this window.
pub proof fn law_moving_frames_go_on(s: Stage, caret_over: bool, now: u64)
    requires
        s.presence.main_window is Some,
    ensures
        s.summons(now) ==> s.frame_ended(true, caret_over, now).due.paint_main,
        (s.timers.slide_anim matches Some(t) && now < t + 150_000_000) ==> s.frame_ended(
            true,
            caret_over,
            now,
        ).due.paint_main,
        s.timers.caret_anim is Some && !caret_over ==> s.frame_ended(
            true,
            caret_over,
            now,
        ).due.paint_main,
        s.presence.visible && s.prefs.fx.crt_live() ==> s.frame_ended(
            true,
            caret_over,
            now,
        ).due.paint_main,
        (s.pointer.shift_hint_until matches Some(h) && h.1 == s.presence.main_window.unwrap() && now
            < h.0) ==> s.frame_ended(true, caret_over, now).due.paint_main,
{
    reveal(Stage::frame_ended);
    reveal(Stage::expired);
    reveal(Stage::caret_expired);
}

/// The caret's flash ends when it is over, in the main window as in a detached
/// one; a frame that was not shown ends nothing else.
pub proof fn law_caret_ends(s: Stage, u: DetachedUi, over: bool, now: u64)
    ensures
        s.frame_ended(true, true, now).timers.caret_anim is None,
        s.frame_ended(true, false, now).timers.caret_anim == s.timers.caret_anim,
        s.frame_ended(false, true, now).timers.caret_anim is None,
        s.frame_ended(false, over, now).timers.summon_anim == s.timers.summon_anim,
        s.frame_ended(false, over, now).timers.slide_anim == s.timers.slide_anim,
        s.frame_ended(false, over, now).due == s.due,
        u.caret_expired(true).caret_anim is None,
        u.caret_expired(false) == u,
        u.caret_expired(over).paint == u.paint,
{
    reveal(Stage::frame_ended);
    reveal(Stage::expired);
    reveal(Stage::caret_expired);
}

/// A bending effect under way is drawn from the texture; the tube is where no
/// such effect is, and wants it too.
pub proof fn law_texture_readers(s: Stage, now: u64)
    ensures
        s.prefs.summon_effect.bends() && s.summons(now) ==> s.routes_frame(true, now).tier_b,
        !s.prefs.summon_effect.bends() || !s.summons(now) ==> !s.routes_frame(true, now).tier_b,
        s.prefs.fx.crt_enabled && (!s.prefs.summon_effect.bends() || !s.summons(now))
            ==> s.routes_frame(true, now).crt,
        !s.prefs.fx.crt_enabled ==> !s.routes_frame(true, now).crt,
        s.prefs.fx.crt_enabled ==> s.wants_texture(),
        s.prefs.summon_effect.bends() && s.timers.summon_anim is Some ==> s.wants_texture(),
        !s.prefs.fx.crt_enabled && (!s.prefs.summon_effect.bends() || s.timers.summon_anim is None)
            ==> !s.wants_texture(),
{
}

/// The last frame of a countdown asks for no further one.
pub proof fn law_last_counted_frame(s: Stage)
    ensures
        s.timers.pending_dock_frames == 1 ==> s.dock_counted().due.paint_main == s.due.paint_main,
        s.timers.pending_center_frames == 1 ==> s.center_counted().due.paint_main
            == s.due.paint_main,
        s.presence.main_window is None ==> s.dock_counted().due == s.due
            && s.center_counted().due == s.due,
{
    reveal(Stage::dock_counted);
    reveal(Stage::center_counted);
}

} // verus!
