//! What the application does with the output of its shells.

use vstd::prelude::*;

use crate::exits::{index_set, kept};
use crate::presence::{Env, LAST_INSTANT};
use crate::state::{
    detached_views, tab_views, App, AppView, Detached, DetachedUi, DetachedView, Due, Overlays,
    Presence, Stage, Tab, TabActivity, TabView, Timers,
};
use crate::titles::{activity_after, apply_title, next_activity, title_after, title_view};

verus! {

/// At most this many bytes of one tab are read before input is looked at.
pub const PTY_DRAIN_BUDGET: usize = 2_097_152;

/// After a resize of the grids, output counts as a shell's answer to it for
/// this long, in nanoseconds.
pub const REFLOW_ACTIVITY_GRACE: u64 = 300_000_000;

/// A burst of configuration changes is read this long after the last one, in
/// nanoseconds.
pub const RELOAD_DELAY: u64 = 200_000_000;

/// Whether a tab of which `fed` bytes were read may be read further.
pub fn may_feed(fed: usize) -> (r: bool)
    ensures
        r == (fed < PTY_DRAIN_BUDGET),
{
    fed < PTY_DRAIN_BUDGET
}

/// What draining one terminal brought.
#[derive(Debug)]
pub struct Drained {
    /// Bytes were fed, or replies sent.
    pub had: bool,
    /// The shell set (`Some`) or cleared (`None`) its title.
    pub title: Option<Option<String>>,
    pub rang: bool,
    pub exited: bool,
}

/// A tab after its drain. The indicator of the active tab is left alone.
pub open spec fn tab_after(tab: TabView, d: Drained, active: bool, suppress: bool) -> TabView {
    TabView {
        title: title_after(tab, title_view(d.title)),
        activity: if active {
            tab.activity
        } else {
            activity_after(tab.activity, d.had, d.rang, suppress)
        },
        ..tab
    }
}

/// The drain changed what the tab bar shows of the tab.
pub open spec fn bar_changed(before: TabView, after: TabView) -> bool {
    before.title != after.title || before.activity != after.activity
}

fn clone_title(t: &Option<Option<String>>) -> (r: Option<Option<String>>)
    ensures
        title_view(r) == title_view(*t),
{
    match t {
        Some(Some(s)) => Some(Some(s.clone())),
        Some(None) => Some(None),
        None => None,
    }
}

fn drain_tab(tab: &mut Tab, d: &Drained, active: bool, suppress: bool) -> (changed: bool)
    ensures
        final(tab)@ == tab_after(old(tab)@, *d, active, suppress),
        changed == bar_changed(old(tab)@, final(tab)@),
{
    let mut changed: bool = apply_title(tab, clone_title(&d.title));
    if !active {
        let new: TabActivity = next_activity(tab.activity, d.had, d.rang, suppress);
        if new != tab.activity {
            tab.activity = new;
            changed = true;
        }
    }
    changed
}

/// What draining every tab told.
#[derive(Debug)]
pub struct DrainSummary {
    /// The active tab had output.
    pub active_had: bool,
    /// The tab bar looks different.
    pub chrome_changed: bool,
    /// The tabs whose shells exited, in order.
    pub exited: Vec<usize>,
}

/// The indices below `n` of the drains that saw their shell exit.
pub open spec fn exits_below(d: Seq<Drained>, n: int) -> Seq<usize>
    decreases n,
{
    if n <= 0 {
        seq![]
    } else if d[n - 1].exited {
        exits_below(d, n - 1).push((n - 1) as usize)
    } else {
        exits_below(d, n - 1)
    }
}

fn drain_tabs(tabs: &mut Vec<Tab>, drains: &Vec<Drained>, active: usize, suppress: bool) -> (changed: bool)
    requires
        drains@.len() == old(tabs)@.len(),
    ensures
        tab_views(final(tabs)@) == Seq::new(
            old(tabs)@.len(),
            |i: int| tab_after(tab_views(old(tabs)@)[i], drains@[i], i == active, suppress),
        ),
        changed == exists|i: int|
            0 <= i < old(tabs)@.len() && bar_changed(
                #[trigger] tab_views(old(tabs)@)[i],
                tab_views(final(tabs)@)[i],
            ),
{
    let ghost v = tab_views(tabs@);
    let n: usize = tabs.len();
    let mut i: usize = 0;
    let mut changed: bool = false;
    while i < n
        invariant
            0 <= i <= n,
            n == tabs@.len(),
            n == v.len(),
            n == drains@.len(),
            tab_views(tabs@).len() == n,
            forall|j: int| i <= j < n ==> #[trigger] tab_views(tabs@)[j] == v[j],
            forall|j: int|
                0 <= j < i ==> #[trigger] tab_views(tabs@)[j] == tab_after(
                    v[j],
                    drains@[j],
                    j == active,
                    suppress,
                ),
            changed == exists|j: int|
                0 <= j < i && bar_changed(
                    #[trigger] v[j],
                    tab_after(v[j], drains@[j], j == active, suppress),
                ),
        decreases n - i,
    {
        let ghost before = tabs@;
        let ghost was = changed;
        assert(tab_views(before)[i as int] == before[i as int]@);
        let c: bool = drain_tab(&mut tabs[i], &drains[i], i == active, suppress);
        if c {
            changed = true;
        }
        proof {
            assert(tab_views(tabs@) =~= tab_views(before).update(i as int, tabs@[i as int]@));
            assert(c == bar_changed(
                v[i as int],
                tab_after(v[i as int], drains@[i as int], i == active, suppress),
            ));
        }
        i = i + 1;
    }
    proof {
        assert(tab_views(tabs@) =~= Seq::new(
            n as nat,
            |i: int| tab_after(v[i], drains@[i], i == active, suppress),
        ));
        if changed {
            let j = choose|j: int|
                0 <= j < n && bar_changed(
                    #[trigger] v[j],
                    tab_after(v[j], drains@[j], j == active, suppress),
                );
            assert(bar_changed(v[j], tab_views(tabs@)[j]));
        }
    }
    changed
}

fn exited_of(drains: &Vec<Drained>) -> (r: Vec<usize>)
    ensures
        r@ == exits_below(drains@, drains@.len() as int),
{
    let mut out: Vec<usize> = Vec::new();
    let mut i: usize = 0;
    while i < drains.len()
        invariant
            0 <= i <= drains@.len(),
            out@ == exits_below(drains@, i as int),
        decreases drains@.len() - i,
    {
        if drains[i].exited {
            out.push(i);
        }
        i = i + 1;
    }
    out
}

impl Stage {
    /// Output still counts as the answer to a resize.
    pub open spec fn in_reflow_grace(self, now: u64) -> bool {
        self.timers.reflow_resized_at matches Some(t) && now < t + REFLOW_ACTIVITY_GRACE
    }

    fn reflow_grace(self, now: u64) -> (r: bool)
        ensures
            r == self.in_reflow_grace(now),
    {
        match self.timers.reflow_resized_at {
            Some(t) => now < t || now - t < REFLOW_ACTIVITY_GRACE,
            None => false,
        }
    }

    /// Output of the active tab, or a change of the tab bar, repaints a main
    /// window that is on the screen, and makes stored matches stale.
    pub open spec fn output_seen(self, active_had: bool, chrome_changed: bool) -> Stage {
        let seen = (active_had || chrome_changed) && self.on_screen();
        Stage {
            ui: Overlays {
                search_dirty: self.ui.search_dirty || (active_had && self.ui.search_open),
                ..self.ui
            },
            due: Due {
                paint_main: self.due.paint_main || seen,
                relink: self.due.relink || (seen && self.pointer.link_hover),
                ..self.due
            },
            ..self
        }
    }

    fn note_output(self, active_had: bool, chrome_changed: bool) -> (r: Stage)
        ensures
            r == self.output_seen(active_had, chrome_changed),
    {
        let seen: bool = (active_had || chrome_changed) && self.presence.visible
            && !self.presence.main_occluded;
        Stage {
            ui: Overlays {
                search_dirty: self.ui.search_dirty || (active_had && self.ui.search_open),
                ..self.ui
            },
            due: Due {
                paint_main: self.due.paint_main || seen,
                relink: self.due.relink || (seen && self.pointer.link_hover),
                ..self.due
            },
            ..self
        }
    }

    /// The configuration changed on disk: it is read when the burst settles.
    pub open spec fn reload_awaited(self, now: u64) -> Stage {
        Stage {
            timers: Timers {
                pending_reload_at: Some((now + RELOAD_DELAY) as u64),
                ..self.timers
            },
            ..self
        }
    }

    /// The configuration changed on disk.
    pub fn config_changed(self, now: u64) -> (r: Stage)
        requires
            now <= LAST_INSTANT,
        ensures
            r == self.reload_awaited(now),
    {
        Stage {
            timers: Timers { pending_reload_at: Some(now + RELOAD_DELAY), ..self.timers },
            ..self
        }
    }
}

impl AppView {
    /// Every tab has taken what its drain brought.
    pub open spec fn drained(self, d: Seq<Drained>, now: u64) -> AppView {
        AppView {
            tabs: Seq::new(
                self.tabs.len(),
                |i: int|
                    tab_after(self.tabs[i], d[i], i == self.active, self.st.in_reflow_grace(now)),
            ),
            ..self
        }
    }

    /// The drains changed what the tab bar shows.
    pub open spec fn chrome_changed(self, d: Seq<Drained>, now: u64) -> bool {
        exists|i: int|
            0 <= i < self.tabs.len() && bar_changed(
                #[trigger] self.tabs[i],
                self.drained(d, now).tabs[i],
            )
    }

    /// The active tab had output.
    pub open spec fn active_had(self, d: Seq<Drained>) -> bool {
        0 <= self.active < self.tabs.len() && d[self.active].had
    }
}

impl App {
    /// Takes what draining every tab brought.
    pub fn drain_pty(&mut self, drains: &Vec<Drained>, now: u64) -> (r: DrainSummary)
        requires
            old(self)@.wf(),
            drains@.len() == old(self).tabs@.len(),
        ensures
            final(self)@ == old(self)@.drained(drains@, now),
            final(self)@.wf(),
            r.active_had == old(self)@.active_had(drains@),
            r.chrome_changed == old(self)@.chrome_changed(drains@, now),
            r.exited@ == exits_below(drains@, drains@.len() as int),
    {
        let suppress: bool = self.st.reflow_grace(now);
        let active: usize = self.active;
        let active_had: bool = active < self.tabs.len() && drains[active].had;
        let chrome_changed: bool = drain_tabs(&mut self.tabs, drains, active, suppress);
        let exited: Vec<usize> = exited_of(drains);
        proof {
            let v = old(self)@;
            assert(self@.tabs =~= v.drained(drains@, now).tabs);
            if chrome_changed {
                let i = choose|i: int|
                    0 <= i < v.tabs.len() && bar_changed(#[trigger] v.tabs[i], self@.tabs[i]);
                assert(bar_changed(v.tabs[i], v.drained(drains@, now).tabs[i]));
            }
            reveal(Stage::same_indices);
            crate::tabs::lemma_wf_frame(v, self@);
        }
        DrainSummary { active_had, chrome_changed, exited }
    }

    /// Output has arrived in the tabs: titles, indicators and repaints follow,
    /// and tabs whose shells exited close. Tells whether the application goes
    /// on.
    pub fn wake_main(&mut self, drains: &Vec<Drained>, env: &Env) -> (r: bool)
        requires
            old(self)@.wf(),
            drains@.len() == old(self).tabs@.len(),
            env.now <= LAST_INSTANT,
        ensures
            final(self)@.wf(),
            ({
                let v = old(self)@;
                let d = v.drained(drains@, env.now);
                let gone = exits_below(drains@, drains@.len() as int);
                let c = if gone.len() == 0 {
                    d
                } else {
                    d.tabs_exited(index_set(gone), *env)
                };
                &&& r == !(gone.len() > 0 && d.all_gone(index_set(gone)))
                &&& final(self)@ == if r {
                    AppView {
                        st: c.st.output_seen(
                            v.active_had(drains@),
                            v.chrome_changed(drains@, env.now),
                        ),
                        ..c
                    }
                } else {
                    c
                }
            }),
    {
        let s: DrainSummary = self.drain_pty(drains, env.now);
        if !self.close_exited_tabs(&s.exited, env) {
            return false;
        }
        proof {
            lemma_output_wf(self@, s.active_had, s.chrome_changed);
        }
        self.st = self.st.note_output(s.active_had, s.chrome_changed);
        true
    }
}

proof fn lemma_output_frame(s: Stage, had: bool, chrome: bool)
    ensures
        s.same_indices(s.output_seen(had, chrome)),
{
    reveal(Stage::same_indices);
    let t = s.output_seen(had, chrome);
    assert(t.ui.renaming == s.ui.renaming);
    assert(t.ui.confirm_close == s.ui.confirm_close);
    assert(t.ui.tab_menu == s.ui.tab_menu);
    assert(t.pointer == s.pointer);
    assert(t.due.exit == s.due.exit);
}

proof fn lemma_output_wf(v: AppView, had: bool, chrome: bool)
    requires
        v.wf(),
    ensures
        (AppView { st: v.st.output_seen(had, chrome), ..v }).wf(),
{
    lemma_output_frame(v.st, had, chrome);
    crate::tabs::lemma_wf_stage(v, v.st.output_seen(had, chrome));
}

impl DetachedUi {
    /// A detached window whose tab had output repaints, unless it is covered,
    /// and looks its link up anew.
    pub open spec fn output_seen(self, seen: bool) -> DetachedUi {
        let shown = seen && !self.occluded;
        DetachedUi {
            paint: self.paint || shown,
            relink: self.relink || (shown && self.link_hover),
            ..self
        }
    }
}

/// A detached window after its drain. It shows no indicator: its tab is the
/// one that its user sees.
pub open spec fn window_after(w: DetachedView, d: Drained) -> DetachedView {
    let title = title_after(w.tab, title_view(d.title));
    DetachedView {
        tab: TabView { title, ..w.tab },
        ui: w.ui.output_seen(d.had || title != w.tab.title),
        ..w
    }
}

fn drain_window(w: &mut Detached, d: &Drained)
    ensures
        final(w)@ == window_after(old(w)@, *d),
{
    let changed: bool = apply_title(&mut w.tab, clone_title(&d.title));
    let seen: bool = (d.had || changed) && !w.ui.occluded;
    let ui: DetachedUi = w.ui;
    w.ui = DetachedUi {
        paint: ui.paint || seen,
        relink: ui.relink || (seen && ui.link_hover),
        ..ui
    };
}

fn drain_windows(list: &mut Vec<Detached>, drains: &Vec<Drained>)
    requires
        drains@.len() == old(list)@.len(),
    ensures
        detached_views(final(list)@) == Seq::new(
            old(list)@.len(),
            |i: int| window_after(detached_views(old(list)@)[i], drains@[i]),
        ),
{
    let ghost v = detached_views(list@);
    let n: usize = list.len();
    let mut i: usize = 0;
    while i < n
        invariant
            0 <= i <= n,
            n == list@.len(),
            n == v.len(),
            n == drains@.len(),
            detached_views(list@).len() == n,
            forall|j: int| i <= j < n ==> #[trigger] detached_views(list@)[j] == v[j],
            forall|j: int|
                0 <= j < i ==> #[trigger] detached_views(list@)[j] == window_after(v[j], drains@[j]),
        decreases n - i,
    {
        let ghost before = list@;
        assert(detached_views(before)[i as int] == before[i as int]@);
        drain_window(&mut list[i], &drains[i]);
        proof {
            assert(detached_views(list@) =~= detached_views(before).update(
                i as int,
                list@[i as int]@,
            ));
        }
        i = i + 1;
    }
    proof {
        assert(detached_views(list@) =~= Seq::new(
            n as nat,
            |i: int| window_after(v[i], drains@[i]),
        ));
    }
}

/// One of the windows in `gone` is `window`.
pub open spec fn names_gone(s: Seq<DetachedView>, gone: Set<int>, window: u64) -> bool {
    exists|i: int| 0 <= i < s.len() && gone.contains(i) && (#[trigger] s[i]).window == window
}

fn is_gone(list: &Vec<Detached>, exited: &Vec<usize>, window: u64) -> (r: bool)
    ensures
        r == names_gone(detached_views(list@), index_set(exited@), window),
{
    let ghost v = detached_views(list@);
    let mut i: usize = 0;
    while i < list.len()
        invariant
            0 <= i <= list@.len(),
            v == detached_views(list@),
            forall|j: int|
                0 <= j < i ==> !(index_set(exited@).contains(j) && (#[trigger] v[j]).window == window),
        decreases list@.len() - i,
    {
        assert(v[i as int].window == list@[i as int].window);
        if list[i].window == window && crate::exits::holds(exited, i) {
            return true;
        }
        i = i + 1;
    }
    false
}

impl Stage {
    /// A detached window that is gone leaves no focus behind. `focused_gone`
    /// tells that it was the one last focused.
    pub open spec fn spec_window_gone(self, focused_gone: bool) -> Stage {
        Stage {
            presence: Presence {
                last_focused_window: if focused_gone {
                    None
                } else {
                    self.presence.last_focused_window
                },
                switching_to_detached: self.presence.switching_to_detached && !focused_gone,
                ..self.presence
            },
            ..self
        }
    }

    /// A detached window that is gone leaves no focus behind. `focused_gone`
    /// tells that it was the one last focused.
    #[verifier::when_used_as_spec(spec_window_gone)]
    pub fn window_gone(self, focused_gone: bool) -> (r: Stage)
        ensures
            r == self.spec_window_gone(focused_gone),
    {
        Stage {
            presence: Presence {
                last_focused_window: if focused_gone {
                    None
                } else {
                    self.presence.last_focused_window
                },
                switching_to_detached: self.presence.switching_to_detached && !focused_gone,
                ..self.presence
            },
            ..self
        }
    }
}

impl AppView {
    /// Every detached window has taken what its drain brought, and those whose
    /// shells exited are gone.
    pub open spec fn windows_drained(self, d: Seq<Drained>) -> AppView {
        let after = Seq::new(self.detached.len(), |i: int| window_after(self.detached[i], d[i]));
        let gone = index_set(exits_below(d, d.len() as int));
        let focused = self.st.presence.last_focused_window;
        AppView {
            detached: kept(after, gone, 0),
            st: self.st.window_gone(focused is Some && names_gone(after, gone, focused->0)),
            ..self
        }
    }
}

impl App {
    /// Output has arrived in the detached windows: titles and repaints follow,
    /// and windows whose shells exited close.
    pub fn wake_detached(&mut self, drains: &Vec<Drained>)
        requires
            old(self)@.wf(),
            drains@.len() == old(self).detached@.len(),
        ensures
            final(self)@ == old(self)@.windows_drained(drains@),
            final(self)@.wf(),
    {
        let exited: Vec<usize> = exited_of(drains);
        drain_windows(&mut self.detached, drains);
        let focused_gone: bool = match self.st.presence.last_focused_window {
            Some(w) => is_gone(&self.detached, &exited, w),
            None => false,
        };
        self.st = self.st.window_gone(focused_gone);
        crate::exits::drop_windows(&mut self.detached, &exited);
        proof {
            lemma_windows_drained_wf(old(self)@, drains@);
        }
    }
}

proof fn lemma_windows_drained_wf(v: AppView, d: Seq<Drained>)
    requires
        v.wf(),
        d.len() == v.detached.len(),
    ensures
        v.windows_drained(d).wf(),
{
    let w = v.windows_drained(d);
    let after = Seq::new(v.detached.len(), |i: int| window_after(v.detached[i], d[i]));
    let gone = index_set(exits_below(d, d.len() as int));
    assert(w.st.ui == v.st.ui);
    assert(w.st.pointer == v.st.pointer);
    assert(w.st.due == v.st.due);
    assert(v.over() ==> w.detached.len() == 0) by {
        if v.over() {
            assert(after.len() == 0);
        }
    }
}

/// The main application never ends because detached windows close.
pub proof fn law_detached_exits_do_not_end(v: AppView, d: Seq<Drained>)
    ensures
        v.windows_drained(d).st.due.exit == v.st.due.exit,
        v.windows_drained(d).tabs == v.tabs,
{
}

/// Output of a background tab repaints nothing by itself: without output of
/// the active tab and without a change of the tab bar no frame is asked for.
pub proof fn law_quiet_drain_paints_nothing(s: Stage)
    ensures
        s.output_seen(false, false) == s,
{
}

/// Output behind a hidden or covered window asks for no frame.
pub proof fn law_hidden_output_paints_nothing(s: Stage, had: bool, chrome: bool)
    requires
        !s.on_screen(),
    ensures
        s.output_seen(had, chrome).due.paint_main == s.due.paint_main,
{
}

/// What a shell shows is drawn: output in the active tab, or a change in the
/// tab strip, repaints a main window that is shown and not covered, and a
/// hovered link is looked up again.
pub proof fn law_visible_output_is_painted(s: Stage, had: bool, chrome: bool)
    ensures
        s.presence.visible && !s.presence.main_occluded && (had || chrome) ==> s.output_seen(
            had,
            chrome,
        ).due.paint_main,
        s.presence.visible && !s.presence.main_occluded && (had || chrome) && s.pointer.link_hover
            ==> s.output_seen(had, chrome).due.relink,
        had && s.ui.search_open ==> s.output_seen(had, chrome).ui.search_dirty,
        !had ==> s.output_seen(had, chrome).ui.search_dirty == s.ui.search_dirty,
        s.due.paint_main ==> s.output_seen(had, chrome).due.paint_main,
{
}

/// What is drained into detached windows: each shell's output, or a new title,
/// repaints its window unless that is covered, a shell that named a title
/// names the window, and a window stays exactly while its shell runs.
pub proof fn law_detached_output_is_painted(v: AppView, d: Seq<Drained>, i: int)
    requires
        0 <= i < v.detached.len(),
        d.len() == v.detached.len(),
        d.len() <= usize::MAX,
        !d[i].exited,
    ensures
        exists|j: int|
            0 <= j < v.windows_drained(d).detached.len() && {
                let was = v.detached[i];
                let is = #[trigger] v.windows_drained(d).detached[j];
                &&& is.window == was.window && is.tab.id == was.tab.id
                &&& d[i].had && !was.ui.occluded ==> is.ui.paint
                &&& is.tab.title != was.tab.title && !was.ui.occluded ==> is.ui.paint
                &&& (d[i].had || is.tab.title != was.tab.title) && !was.ui.occluded
                    && was.ui.link_hover ==> is.ui.relink
                &&& was.ui.occluded || (!d[i].had && is.tab.title == was.tab.title) ==> is.ui
                    == was.ui
                &&& d[i].title is None || was.tab.manually_renamed ==> is.tab.title
                    == was.tab.title
                &&& !was.tab.manually_renamed ==> (d[i].title matches Some(Some(t)) ==> is.tab.title
                    == t@)
                &&& !was.tab.manually_renamed && d[i].title == Some(None::<String>)
                    ==> is.tab.title == was.tab.default_title
                &&& is.tab.activity == was.tab.activity
            },
{
    let after = Seq::new(v.detached.len(), |k: int| window_after(v.detached[k], d[k]));
    let gone = index_set(exits_below(d, d.len() as int));
    lemma_exits_are_flags(d, d.len() as int);
    assert(!gone.contains(i));
    crate::exits::lemma_kept_at(after, gone, 0, i);
    let j = i - crate::exits::count_gone(gone, 0, i);
    assert(v.windows_drained(d).detached[j] == after[i]);
}

/// As many detached windows stay as shells run on, and the tabs of the main
/// window are not touched.
pub proof fn law_exited_windows_close(v: AppView, d: Seq<Drained>)
    requires
        d.len() == v.detached.len(),
        d.len() <= usize::MAX,
    ensures
        forall|i: int| 0 <= i < d.len() ==> (#[trigger] d[i]).exited ==> v.windows_drained(
            d,
        ).detached.len() < v.detached.len(),
        (forall|i: int| 0 <= i < d.len() ==> !(#[trigger] d[i]).exited) ==> v.windows_drained(
            d,
        ).detached.len() == v.detached.len(),
{
    let after = Seq::new(v.detached.len(), |k: int| window_after(v.detached[k], d[k]));
    let gone = index_set(exits_below(d, d.len() as int));
    lemma_exits_are_flags(d, d.len() as int);
    crate::exits::lemma_kept_len(after, gone, 0);
    lemma_count_flags(d, gone, 0);
}

proof fn lemma_count_flags(d: Seq<Drained>, gone: Set<int>, lo: int)
    requires
        0 <= lo <= d.len(),
        forall|i: int| 0 <= i < d.len() ==> gone.contains(i) == #[trigger] d[i].exited,
    ensures
        crate::exits::count_gone(gone, lo, d.len() as int) >= 0,
        (exists|i: int| lo <= i < d.len() && #[trigger] d[i].exited) ==> crate::exits::count_gone(
            gone,
            lo,
            d.len() as int,
        ) > 0,
        (forall|i: int| lo <= i < d.len() ==> !#[trigger] d[i].exited) ==> crate::exits::count_gone(
            gone,
            lo,
            d.len() as int,
        ) == 0,
    decreases d.len() - lo,
{
    if lo < d.len() {
        lemma_count_flags(d, gone, lo + 1);
        assert(gone.contains(lo) == d[lo].exited);
    }
}

proof fn lemma_exits_are_flags(d: Seq<Drained>, n: int)
    requires
        0 <= n <= d.len() <= usize::MAX,
    ensures
        forall|i: int|
            0 <= i < d.len() ==> index_set(exits_below(d, n)).contains(i) == (i < n
                && #[trigger] d[i].exited),
    decreases n,
{
    if n > 0 {
        lemma_exits_are_flags(d, n - 1);
        let before = exits_below(d, n - 1);
        let now = exits_below(d, n);
        assert forall|i: int| 0 <= i < d.len() implies index_set(now).contains(i) == (i < n
            && #[trigger] d[i].exited) by {
            assert(index_set(before).contains(i) == (i < n - 1 && d[i].exited));
            if d[n - 1].exited {
                if index_set(before).contains(i) {
                    let k = choose|k: int| 0 <= k < before.len() && #[trigger] before[k] == i;
                    assert(now[k] == i);
                }
                if i == n - 1 {
                    assert(now[before.len() as int] == i);
                }
                if index_set(now).contains(i) {
                    let k = choose|k: int| 0 <= k < now.len() && #[trigger] now[k] == i;
                    if k < before.len() {
                        assert(before[k] == i);
                    }
                }
            }
        }
    } else {
        assert forall|i: int| 0 <= i < d.len() implies !index_set(
            exits_below(d, n),
        ).contains(i) by {}
    }
}

/// What is drained into tabs: a background tab lights up for output and for
/// the bell, the active one never does, and output that a fitted grid caused
/// within three tenths of a second lights nothing.
pub proof fn law_drained_tabs_light_up(v: AppView, d: Seq<Drained>, now: u64, i: int)
    requires
        0 <= i < v.tabs.len(),
        d.len() == v.tabs.len(),
    ensures
        ({
            let was = v.tabs[i];
            let is = v.drained(d, now).tabs[i];
            let fitted = v.st.timers.reflow_resized_at matches Some(t) && now < t + 300_000_000;
            &&& v.drained(d, now).tabs.len() == v.tabs.len()
            &&& is.id == was.id && is.default_title == was.default_title && is.manually_renamed
                == was.manually_renamed
            &&& i == v.active ==> is.activity == was.activity
            &&& i != v.active && d[i].rang ==> is.activity == TabActivity::Bell
            &&& i != v.active && !d[i].rang && d[i].had && !fitted && was.activity
                == TabActivity::Idle ==> is.activity == TabActivity::Output
            &&& !d[i].rang && (!d[i].had || fitted) ==> is.activity == was.activity
            &&& !was.manually_renamed ==> (d[i].title matches Some(Some(t)) ==> is.title == t@)
            &&& !was.manually_renamed && d[i].title == Some(None::<String>) ==> is.title
                == was.default_title
            &&& d[i].title is None ==> is.title == was.title
        }),
{
}

/// The strip counts as changed exactly where a title or an indicator did.
pub proof fn law_strip_changes(v: AppView, d: Seq<Drained>, now: u64, i: int)
    requires
        0 <= i < v.tabs.len(),
        d.len() == v.tabs.len(),
    ensures
        v.drained(d, now).tabs[i].title != v.tabs[i].title || v.drained(d, now).tabs[i].activity
            != v.tabs[i].activity ==> v.chrome_changed(d, now),
        v.drained(d, now).tabs == v.tabs ==> !v.chrome_changed(d, now),
        i == v.active ==> v.active_had(d) == d[i].had,
{
}

/// A changed configuration is read a fifth of a second after its last change.
pub proof fn law_reload_waits(s: Stage, first: u64, last: u64)
    requires
        first <= last <= crate::presence::LAST_INSTANT,
    ensures
        s.reload_awaited(first).reload_awaited(last).timers.pending_reload_at == Some(
            (last + 200_000_000) as u64,
        ),
        s.reload_awaited(last).due == s.due,
{
}

/// A focus memory of a window that is gone goes with it, and no other.
pub proof fn law_gone_window_is_forgotten(s: Stage)
    ensures
        s.window_gone(true).presence.last_focused_window is None,
        !s.window_gone(true).presence.switching_to_detached,
        s.window_gone(false) == s,
{
}

} // verus!
