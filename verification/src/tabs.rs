//! The tabs of the main window and the windows detached from it.

use vstd::prelude::*;

use crate::presence::{Env, LAST_INSTANT};
use crate::state::{
    detached_views, tab_views, App, AppView, Detached, DetachedUi, Due, Overlays, Pointer, Presence,
    Stage, Tab, TabActivity, TabView,
};
use crate::zone::ResizeZone;

verus! {

/// An index into a list from which the entry at `removed` was taken: gone with
/// that entry, else naming the same entry as before.
pub open spec fn index_after_remove(idx: Option<usize>, removed: int) -> Option<usize> {
    match idx {
        Some(j) => if j == removed {
            None
        } else if j > removed {
            Some((j - 1) as usize)
        } else {
            idx
        },
        None => None,
    }
}

/// The active index after a removal: the same tab, else the tab that moved
/// into its place, else the last of the `len` that are left.
pub open spec fn active_after_remove(active: int, removed: int, len: int) -> int {
    if active >= len {
        len - 1
    } else if active > removed {
        active - 1
    } else {
        active
    }
}

/// A detached window's interaction state when it opens.
pub open spec fn fresh_ui() -> DetachedUi {
    DetachedUi {
        focused: false,
        occluded: false,
        selecting: false,
        dragging_scrollbar: false,
        bar_drag: false,
        grabbed: false,
        menu_open: false,
        menu_hover: None,
        link_hover: false,
        link_cell: None,
        resize_zone: ResizeZone::Interior,
        caret_anim: None,
        reflow_pending_at: None,
        last_bar_click: None,
        close_hover: false,
        calm: false,
        paint: false,
        relink: false,
        reflow: false,
        cursor: None,
    }
}

impl Stage {
    /// The search bar is closed, and the search state of the tab that it
    /// served is dropped.
    pub open spec fn search_closed(self, active: Option<u64>) -> Stage {
        if !self.ui.search_open {
            self
        } else {
            Stage {
                ui: Overlays { search_open: false, search_dirty: false, ..self.ui },
                due: Due {
                    search_clear: if active is Some {
                        active
                    } else {
                        self.due.search_clear
                    },
                    paint_main: true,
                    ..self.due
                },
                ..self
            }
        }
    }

    pub(crate) fn close_search(self, active: Option<u64>) -> (r: Stage)
        ensures
            r == self.search_closed(active),
    {
        if !self.ui.search_open {
            return self;
        }
        let search_clear: Option<u64> = if active.is_some() {
            active
        } else {
            self.due.search_clear
        };
        Stage {
            ui: Overlays { search_open: false, search_dirty: false, ..self.ui },
            due: Due { search_clear, paint_main: true, ..self.due },
            ..self
        }
    }

    /// The theme goes into every terminal, and detached windows repaint.
    pub open spec fn spec_apply_theme(self) -> Stage {
        Stage { due: Due { restyle: true, paint_detached: true, ..self.due }, ..self }
    }

    /// The theme goes into every terminal, and detached windows repaint.
    #[verifier::when_used_as_spec(spec_apply_theme)]
    pub fn apply_theme(self) -> (r: Stage)
        ensures
            r == self.spec_apply_theme(),
    {
        Stage { due: Due { restyle: true, paint_detached: true, ..self.due }, ..self }
    }

    /// Another grid is under the pointer: the link there is looked up anew and
    /// the window repainted.
    pub open spec fn spec_relink_and_paint(self) -> Stage {
        Stage { due: Due { relink: true, paint_main: true, ..self.due }, ..self }
    }

    /// Another grid is under the pointer: the link there is looked up anew and
    /// the window repainted.
    #[verifier::when_used_as_spec(spec_relink_and_paint)]
    pub fn relink_and_paint(self) -> (r: Stage)
        ensures
            r == self.spec_relink_and_paint(),
    {
        Stage { due: Due { relink: true, paint_main: true, ..self.due }, ..self }
    }

    /// State that names tabs by index follows a removal; what cannot follow is
    /// dropped.
    pub open spec fn forget_tab(self, removed: int) -> Stage {
        Stage {
            ui: Overlays {
                renaming: index_after_remove(self.ui.renaming, removed),
                confirm_close: index_after_remove(self.ui.confirm_close, removed),
                ..self.menu_closed().ui
            },
            pointer: Pointer { selecting: false, tab_drag: None, ..self.pointer },
            ..self
        }
    }

    /// The tab menu is closed.
    pub open spec fn spec_menu_closed(self) -> Stage {
        Stage {
            ui: Overlays {
                tab_menu: None,
                tab_menu_hover: None,
                tab_menu_detach: false,
                ..self.ui
            },
            ..self
        }
    }

    /// The tab menu is closed.
    #[verifier::when_used_as_spec(spec_menu_closed)]
    pub fn menu_closed(self) -> (r: Stage)
        ensures
            r == self.spec_menu_closed(),
    {
        Stage {
            ui: Overlays { tab_menu: None, tab_menu_hover: None, tab_menu_detach: false, ..self.ui },
            ..self
        }
    }

    /// Both menus are closed.
    pub open spec fn spec_dismiss_menus(self) -> Stage {
        Stage {
            ui: Overlays {
                context_menu: false,
                menu_hover: None,
                tab_menu: None,
                tab_menu_hover: None,
                tab_menu_detach: false,
                ..self.ui
            },
            ..self
        }
    }

    /// Both menus are closed.
    #[verifier::when_used_as_spec(spec_dismiss_menus)]
    pub fn dismiss_menus(self) -> (r: Stage)
        ensures
            r == self.spec_dismiss_menus(),
    {
        Stage {
            ui: Overlays {
                context_menu: false,
                menu_hover: None,
                tab_menu: None,
                tab_menu_hover: None,
                tab_menu_detach: false,
                ..self.ui
            },
            ..self
        }
    }

    pub(crate) fn forget(self, removed: usize) -> (r: Stage)
        ensures
            r == self.forget_tab(removed as int),
    {
        let mut renaming: Option<usize> = self.ui.renaming;
        let mut confirm_close: Option<usize> = self.ui.confirm_close;
        App::adjust_index_after_remove(&mut renaming, removed);
        App::adjust_index_after_remove(&mut confirm_close, removed);
        Stage {
            ui: Overlays { renaming, confirm_close, ..self.menu_closed().ui },
            pointer: Pointer { selecting: false, tab_drag: None, ..self.pointer },
            ..self
        }
    }

    /// A detached window has given its tab back: nothing remembers its focus,
    /// the tab is fitted and themed, and a hidden main window comes up for it.
    #[verifier::opaque]
    pub open spec fn reattached(self, window: u64, tab: u64, env: Env) -> Stage {
        let s = Stage {
            presence: Presence {
                last_focused_window: if self.presence.last_focused_window == Some(window) {
                    None
                } else {
                    self.presence.last_focused_window
                },
                switching_to_detached: false,
                ..self.presence
            },
            due: Due { fit: Some(tab), ..self.due },
            ..self
        };
        (if s.presence.visible {
            s.apply_theme()
        } else {
            s.apply_theme().visibility(true, env)
        }).relink_and_paint()
    }

    fn take_back(self, window: u64, tab: u64, env: &Env) -> (r: Stage)
        requires
            env.now <= LAST_INSTANT,
        ensures
            r == self.reattached(window, tab, *env),
    {
        reveal(Stage::reattached);
        let last_focused_window: Option<u64> = match self.presence.last_focused_window {
            Some(w) => if w == window {
                None
            } else {
                Some(w)
            },
            None => None,
        };
        let s: Stage = Stage {
            presence: Presence {
                last_focused_window,
                switching_to_detached: false,
                ..self.presence
            },
            due: Due { fit: Some(tab), ..self.due },
            ..self
        };
        if s.presence.visible {
            s.apply_theme().relink_and_paint()
        } else {
            s.apply_theme().set_visibility(true, env).relink_and_paint()
        }
    }

    /// A popup, an editor or a bar owns the keyboard.
    pub open spec fn keys_owned(self) -> bool {
        ||| self.ui.confirm_quit
        ||| self.ui.confirm_close is Some
        ||| self.ui.renaming is Some
        ||| self.ui.palette_open
        ||| self.ui.welcome_open
        ||| self.ui.help_open
        ||| self.ui.search_open
    }

    /// Whether a popup, an editor or a bar owns the keyboard.
    pub fn overlay_owns_keys(self) -> (r: bool)
        ensures
            r == self.keys_owned(),
    {
        self.ui.confirm_quit || self.ui.confirm_close.is_some() || self.ui.renaming.is_some()
            || self.ui.palette_open || self.ui.welcome_open || self.ui.help_open
            || self.ui.search_open
    }
}

impl AppView {
    /// The application has ended for want of tabs.
    pub open spec fn over(self) -> bool {
        self.tabs.len() == 0 && self.detached.len() == 0 && self.st.due.exit
    }

    /// Every index that the state holds names a tab that exists; before the
    /// first tab there is, they stand at the start.
    pub open spec fn indices_ok(self) -> bool {
        let n = if self.tabs.len() > 0 {
            self.tabs.len() as int
        } else {
            1
        };
        &&& 0 <= self.active < n
        &&& self.st.ui.renaming matches Some(i) ==> i < n
        &&& self.st.ui.confirm_close matches Some(i) ==> i < n
        &&& self.st.ui.tab_menu matches Some(i) ==> i < n
        &&& self.st.pointer.tab_drag matches Some(d) ==> d.idx < n
    }

    /// The state's invariant.
    pub open spec fn wf(self) -> bool {
        &&& self.over() || self.indices_ok()
        &&& self.palette.rows >= 1
        &&& self.palette_ok()
        &&& self.hint matches Some(h) ==> h.tokens.len() == h.labels.len()
    }

    /// The palette's selection is one of its rows, where it has any, and lies in
    /// the visible part.
    pub open spec fn palette_ok(self) -> bool {
        let p = self.palette;
        p.hits.len() > 0 ==> {
            &&& 0 <= p.selected < p.hits.len()
            &&& 0 <= p.scroll <= p.selected < p.scroll + p.rows
        }
    }

    /// The active tab's name.
    pub open spec fn active_id(self) -> Option<u64> {
        if 0 <= self.active < self.tabs.len() {
            Some(self.tabs[self.active].id)
        } else {
            None
        }
    }

    /// The search bar is closed.
    pub open spec fn search_close(self) -> AppView {
        AppView { st: self.st.search_closed(self.active_id()), ..self }
    }

    /// The buffer of a rename that is over is empty.
    pub open spec fn settle_rename(self) -> AppView {
        AppView {
            rename_buf: if self.st.ui.renaming is None {
                seq![]
            } else {
                self.rename_buf
            },
            ..self
        }
    }

    /// The detached window at `pos` gives its tab back: it becomes the last
    /// tab and the active one, and a hidden main window comes up for it.
    pub open spec fn reattach(self, pos: int, env: Env) -> AppView {
        let d = self.detached[pos];
        AppView {
            tabs: self.tabs.push(TabView { activity: TabActivity::Idle, ..d.tab }),
            active: self.tabs.len() as int,
            detached: self.detached.remove(pos),
            st: self.search_close().st.reattached(d.window, d.tab.id, env),
            ..self
        }
    }

    /// Tab `i` is closed. When no tab is left, the first detached one comes
    /// back; when there is none either, the application ends.
    pub open spec fn close_tab(self, i: int, env: Env) -> AppView {
        let s = if i == self.active {
            self.search_close()
        } else {
            self
        };
        let cut = AppView { tabs: self.tabs.remove(i), ..s };
        if i >= self.tabs.len() {
            self
        } else if cut.tabs.len() == 0 && cut.detached.len() == 0 {
            AppView { st: Stage { due: Due { exit: true, ..cut.st.due }, ..cut.st }, ..cut }
        } else {
            (if cut.tabs.len() == 0 {
                cut.reattach(0, env)
            } else {
                cut
            }).fixed_up(i)
        }
    }

    /// Every index is put right after tab `i` left.
    pub open spec fn fixed_up(self, i: int) -> AppView {
        let fixed = AppView {
            active: active_after_remove(self.active, i, self.tabs.len() as int),
            st: self.st.forget_tab(i).relink_and_paint(),
            ..self
        };
        fixed.settle_rename()
    }
}

/// The frame of a reattachment: only the presence, the timers and the due work
/// change.
pub(crate) proof fn lemma_reattached_frame(s: Stage, window: u64, tab: u64, env: Env)
    ensures
        s.reattached(window, tab, env).ui == s.ui,
        s.reattached(window, tab, env).pointer == s.pointer,
        s.reattached(window, tab, env).prefs == s.prefs,
        s.reattached(window, tab, env).panel == s.panel,
{
    reveal(Stage::reattached);
}

impl Stage {
    /// `self` and `other` name the same tabs.
    #[verifier::opaque]
    pub open spec fn same_indices(self, other: Stage) -> bool {
        &&& self.ui.renaming == other.ui.renaming
        &&& self.ui.confirm_close == other.ui.confirm_close
        &&& self.ui.tab_menu == other.ui.tab_menu
        &&& self.pointer.tab_drag == other.pointer.tab_drag
        &&& self.due.exit == other.due.exit
    }
}

/// A step that moves no tab and renames no index keeps the invariant.
pub(crate) proof fn lemma_wf_frame(a: AppView, b: AppView)
    requires
        a.wf(),
        a.tabs.len() == b.tabs.len(),
        a.active == b.active,
        a.detached.len() == b.detached.len(),
        a.palette == b.palette,
        a.hint == b.hint,
        a.st.same_indices(b.st),
    ensures
        b.wf(),
{
    reveal(Stage::same_indices);
}

/// The same, where only the scalar state changes.
pub(crate) proof fn lemma_wf_stage(v: AppView, st: Stage)
    requires
        v.wf(),
        v.st.same_indices(st),
    ensures
        (AppView { st, ..v }).wf(),
{
    lemma_wf_frame(v, AppView { st, ..v });
}

impl Stage {
    /// `other` names no tab that `self` does not name in the same place, and
    /// an end that was asked for stays asked for.
    #[verifier::opaque]
    pub open spec fn narrows_to(self, other: Stage) -> bool {
        &&& other.ui.renaming is None || other.ui.renaming == self.ui.renaming
        &&& other.ui.confirm_close is None || other.ui.confirm_close == self.ui.confirm_close
        &&& other.ui.tab_menu is None || other.ui.tab_menu == self.ui.tab_menu
        &&& other.pointer.tab_drag matches Some(d) ==> self.pointer.tab_drag matches Some(e) && d.idx
            == e.idx
        &&& self.due.exit ==> other.due.exit
    }
}

/// A step that moves no tab and at most forgets indices keeps the invariant.
pub(crate) proof fn lemma_wf_narrow(v: AppView, st: Stage)
    requires
        v.wf(),
        v.st.narrows_to(st),
    ensures
        (AppView { st, ..v }).wf(),
{
    reveal(Stage::narrows_to);
}

/// Such a step, seen field by field.
pub(crate) proof fn lemma_narrow(s: Stage, t: Stage)
    requires
        t.ui.renaming is None || t.ui.renaming == s.ui.renaming,
        t.ui.confirm_close is None || t.ui.confirm_close == s.ui.confirm_close,
        t.ui.tab_menu is None || t.ui.tab_menu == s.ui.tab_menu,
        t.pointer.tab_drag matches Some(d) ==> s.pointer.tab_drag matches Some(e) && d.idx == e.idx,
        s.due.exit ==> t.due.exit,
    ensures
        s.narrows_to(t),
{
    reveal(Stage::narrows_to);
}

/// Such a step, where nothing that names a tab changes.
pub(crate) proof fn lemma_keep(s: Stage, t: Stage)
    requires
        t.ui == s.ui,
        t.pointer.tab_drag == s.pointer.tab_drag,
        t.due.exit == s.due.exit,
    ensures
        s.narrows_to(t),
{
    reveal(Stage::narrows_to);
}

/// Two such steps are one.
pub(crate) proof fn lemma_narrow_trans(a: Stage, b: Stage, c: Stage)
    requires
        a.narrows_to(b),
        b.narrows_to(c),
    ensures
        a.narrows_to(c),
{
    reveal(Stage::narrows_to);
}

/// Reattaching does not end the application.
pub(crate) proof fn lemma_reattached_exit(s: Stage, window: u64, tab: u64, env: Env)
    ensures
        s.reattached(window, tab, env).due.exit == s.due.exit,
{
    reveal(Stage::reattached);
}

/// Reattaching keeps every index valid.
proof fn lemma_reattach_wf(v: AppView, pos: int, env: Env)
    requires
        v.wf(),
        0 <= pos < v.detached.len(),
    ensures
        v.reattach(pos, env).wf(),
{
    let d = v.detached[pos];
    lemma_reattached_frame(v.search_close().st, d.window, d.tab.id, env);
}

/// Closing a tab keeps every index valid.
proof fn lemma_close_tab_wf(v: AppView, i: int, env: Env)
    requires
        v.wf(),
        0 <= i,
    ensures
        v.close_tab(i, env).wf(),
{
    if i < v.tabs.len() {
        let s = if i == v.active {
            v.search_close()
        } else {
            v
        };
        let cut = AppView { tabs: v.tabs.remove(i), ..s };
        if cut.tabs.len() == 0 && cut.detached.len() > 0 {
            lemma_reattach_wf(cut, 0, env);
        }
    }
}

pub(crate) fn next_active(active: usize, removed: usize, len: usize) -> (r: usize)
    requires
        len > 0,
    ensures
        r == active_after_remove(active as int, removed as int, len as int),
{
    if active >= len {
        len - 1
    } else if active > removed {
        active - 1
    } else {
        active
    }
}

proof fn lemma_views_remove(s: Seq<Tab>, i: int)
    requires
        0 <= i < s.len(),
    ensures
        tab_views(s.remove(i)) == tab_views(s).remove(i),
{
    assert(tab_views(s.remove(i)) =~= tab_views(s).remove(i));
}

proof fn lemma_detached_remove(s: Seq<Detached>, i: int)
    requires
        0 <= i < s.len(),
    ensures
        detached_views(s.remove(i)) == detached_views(s).remove(i),
{
    assert(detached_views(s.remove(i)) =~= detached_views(s).remove(i));
}

impl App {
    /// Moves an index after the tab at `removed` was taken out: it is cleared
    /// where it named that tab and goes on naming the same tab otherwise.
    pub fn adjust_index_after_remove(idx: &mut Option<usize>, removed: usize)
        ensures
            *final(idx) == index_after_remove(*old(idx), removed as int),
    {
        match *idx {
            Some(j) => {
                if j == removed {
                    *idx = None;
                } else if j > removed {
                    *idx = Some(j - 1);
                }
            },
            None => {},
        }
    }

    /// The active tab's name.
    pub fn active_tab_id(&self) -> (r: Option<u64>)
        ensures
            r == self@.active_id(),
    {
        if self.active < self.tabs.len() {
            Some(self.tabs[self.active].id)
        } else {
            None
        }
    }

    /// Closes the search bar.
    pub fn search_close(&mut self)
        ensures
            final(self)@ == old(self)@.search_close(),
    {
        let id: Option<u64> = self.active_tab_id();
        self.st = self.st.close_search(id);
    }

    /// Moves the tab of the detached window at `pos` back into the main
    /// window; nothing where there is no such window.
    pub fn reattach_tab(&mut self, pos: usize, env: &Env)
        requires
            env.now <= LAST_INSTANT,
        ensures
            pos >= old(self).detached@.len() ==> final(self)@ == old(self)@,
            pos < old(self).detached@.len() ==> final(self)@ == old(self)@.reattach(
                pos as int,
                *env,
            ),
            old(self)@.wf() ==> final(self)@.wf(),
    {
        if pos >= self.detached.len() {
            return;
        }
        proof {
            if self@.wf() {
                lemma_reattach_wf(self@, pos as int, *env);
            }
        }
        let id: Option<u64> = self.active_tab_id();
        let dw: Detached = self.detached.remove(pos);
        let mut tab: Tab = dw.tab;
        tab.activity = TabActivity::Idle;
        self.active = self.tabs.len();
        self.st = self.st.close_search(id).take_back(dw.window, tab.id, env);
        self.tabs.push(tab);
        proof {
            let d = old(self)@.detached[pos as int];
            lemma_detached_remove(old(self).detached@, pos as int);
            assert(tab@ == (TabView { activity: TabActivity::Idle, ..d.tab }));
            assert(tab_views(self.tabs@) =~= tab_views(old(self).tabs@).push(tab@));
        }
    }

    pub(crate) fn settle_rename(&mut self)
        ensures
            final(self)@ == old(self)@.settle_rename(),
    {
        if self.st.ui.renaming.is_none() {
            self.rename_buf.clear();
        }
    }

    /// Closes tab `i`; nothing where there is no such tab.
    pub fn close_tab(&mut self, i: usize, env: &Env)
        requires
            old(self)@.wf(),
            env.now <= LAST_INSTANT,
        ensures
            final(self)@ == old(self)@.close_tab(i as int, *env),
            final(self)@.wf(),
    {
        if i >= self.tabs.len() {
            return;
        }
        proof {
            lemma_close_tab_wf(self@, i as int, *env);
            lemma_views_remove(self.tabs@, i as int);
        }
        let id: Option<u64> = self.active_tab_id();
        if i == self.active {
            self.st = self.st.close_search(id);
        }
        let _closed: Tab = self.tabs.remove(i);
        let ghost cut = self@;
        if self.tabs.len() == 0 {
            if self.detached.len() == 0 {
                self.st = Stage { due: Due { exit: true, ..self.st.due }, ..self.st };
                return;
            }
            self.reattach_tab(0, env);
        }
        self.fix_up(i);
    }

    /// Puts the active index and every other index right after tab `i` left.
    fn fix_up(&mut self, i: usize)
        requires
            old(self).tabs@.len() > 0,
        ensures
            final(self)@ == old(self)@.fixed_up(i as int),
    {
        self.active = next_active(self.active, i, self.tabs.len());
        self.st = self.st.forget(i).relink_and_paint();
        self.settle_rename();
    }
}

/// Closing another tab leaves the active one active.
pub proof fn law_close_keeps_active(v: AppView, i: int, env: Env)
    requires
        v.wf(),
        0 <= i < v.tabs.len(),
        i != v.active,
    ensures
        v.close_tab(i, env).active_id() == v.active_id(),
        v.active_id() is Some,
{
}

/// A rename and a question about closing follow their tab when another one is
/// closed, and go with their own.
pub proof fn law_close_moves_indices(v: AppView, i: int, j: usize, env: Env)
    requires
        v.wf(),
        0 <= i < v.tabs.len(),
        v.tabs.len() > 1,
    ensures
        v.st.ui.renaming == Some(j) && j != i ==> (v.close_tab(i, env).st.ui.renaming matches Some(
            k,
        ) && v.close_tab(i, env).tabs[k as int] == v.tabs[j as int]),
        v.st.ui.renaming == Some(j) && j == i ==> v.close_tab(i, env).st.ui.renaming is None
            && v.close_tab(i, env).rename_buf.len() == 0,
        v.st.ui.confirm_close == Some(j) && j != i ==> (v.close_tab(
            i,
            env,
        ).st.ui.confirm_close matches Some(k) && v.close_tab(i, env).tabs[k as int]
            == v.tabs[j as int]),
        v.st.ui.confirm_close == Some(j) && j == i ==> v.close_tab(i, env).st.ui.confirm_close
            is None,
{
}

/// Closing the last tab of the main window brings the first detached one back
/// and ends the application only where there is none.
pub proof fn law_last_close(v: AppView, env: Env)
    requires
        v.tabs.len() == 1,
        !v.st.due.exit,
    ensures
        v.close_tab(0, env).st.due.exit == (v.detached.len() == 0),
        v.detached.len() > 0 ==> v.close_tab(0, env).tabs.len() == 1 && v.close_tab(0, env).tabs[0].id
            == v.detached[0].tab.id && v.close_tab(0, env).detached == v.detached.remove(0),
{
    if v.detached.len() > 0 {
        let cut = AppView { tabs: v.tabs.remove(0), ..if 0 == v.active {
            v.search_close()
        } else {
            v
        } };
        lemma_reattached_exit(
            cut.search_close().st,
            v.detached[0].window,
            v.detached[0].tab.id,
            env,
        );
    }
}

/// Where a tab leaves, the index of another names the same tab as before and
/// its own names none.
pub proof fn law_index_follows_its_tab<T>(s: Seq<T>, j: usize, removed: int)
    requires
        0 <= removed < s.len(),
        j < s.len(),
    ensures
        j == removed ==> index_after_remove(Some(j), removed) is None,
        j != removed ==> (index_after_remove(Some(j), removed) matches Some(k) && k < s.len() - 1
            && s.remove(removed)[k as int] == s[j as int]),
        index_after_remove(None, removed) is None,
{
}

/// The active tab that leaves is followed by the one after it, the last one by
/// the one before it.
pub proof fn law_next_tab_follows(active: int, len: int)
    requires
        0 <= active < len,
        len > 1,
    ensures
        active < len - 1 ==> active_after_remove(active, active, len - 1) == active,
        active == len - 1 ==> active_after_remove(active, active, len - 1) == active - 1,
{
}

/// A closed search is closed, its marks are cleared from its tab, and the
/// window painted; where none was open nothing happens.
pub proof fn law_closed_search_is_cleared(s: Stage, active: Option<u64>)
    ensures
        !s.search_closed(active).ui.search_open,
        s.ui.search_open ==> s.search_closed(active).due.paint_main && !s.search_closed(
            active,
        ).ui.search_dirty,
        s.ui.search_open && active is Some ==> s.search_closed(active).due.search_clear == active,
        !s.ui.search_open ==> s.search_closed(active) == s,
{
}

/// Closing the menu of a tab closes it with its mark, dismissing menus the
/// menu of the grid as well, and neither touches another overlay.
pub proof fn law_menus_close(s: Stage)
    ensures
        s.menu_closed().ui.tab_menu is None,
        s.menu_closed().ui.tab_menu_hover is None,
        !s.menu_closed().ui.tab_menu_detach,
        s.menu_closed().ui.context_menu == s.ui.context_menu,
        s.menu_closed().ui.palette_open == s.ui.palette_open,
        !s.dismiss_menus().ui.context_menu,
        s.dismiss_menus().ui.menu_hover is None,
        s.dismiss_menus().ui.tab_menu is None,
        s.dismiss_menus().ui.tab_menu_hover is None,
        !s.dismiss_menus().ui.tab_menu_detach,
        s.dismiss_menus().ui.palette_open == s.ui.palette_open,
        s.dismiss_menus().ui.search_open == s.ui.search_open,
        s.dismiss_menus().ui.renaming == s.ui.renaming,
{
}

/// A new theme restyles and paints every detached window.
pub proof fn law_theme_reaches_every_window(s: Stage)
    ensures
        s.apply_theme().due.restyle,
        s.apply_theme().due.paint_detached,
        s.apply_theme().due.paint_main == s.due.paint_main,
        s.apply_theme().prefs == s.prefs,
        s.relink_and_paint().due.relink,
        s.relink_and_paint().due.paint_main,
{
}

/// A tab that is put back is the last and active one, idle, fitted and styled
/// as the main window is; that window is shown, the search of the tab before
/// closes, and the window that it left is gone.
pub proof fn law_reattached_tab(v: AppView, pos: int, env: Env)
    requires
        0 <= pos < v.detached.len(),
    ensures
        ({
            let d = v.detached[pos];
            let w = v.reattach(pos, env);
            &&& w.tabs.len() == v.tabs.len() + 1 && w.tabs.drop_last() == v.tabs
            &&& w.active == v.tabs.len()
            &&& w.tabs.last().id == d.tab.id && w.tabs.last().title == d.tab.title
                && w.tabs.last().manually_renamed == d.tab.manually_renamed
                && w.tabs.last().activity == TabActivity::Idle
            &&& w.detached == v.detached.remove(pos)
            &&& w.st.presence.visible && !w.st.presence.switching_to_detached
            &&& w.st.presence.last_focused_window != Some(d.window) || !v.st.presence.visible
            &&& w.st.due.restyle && w.st.due.relink && w.st.due.paint_main
            &&& !w.st.ui.search_open
        }),
{
    reveal(Stage::reattached);
    assert(v.reattach(pos, env).tabs.drop_last() =~= v.tabs);
}

/// A tab that is put back is fitted to the main window.
pub proof fn law_reattached_tab_is_fitted(s: Stage, window: u64, tab: u64, env: Env)
    requires
        s.presence.visible,
    ensures
        s.reattached(window, tab, env).due.fit == Some(tab),
{
    reveal(Stage::reattached);
}

/// The keyboard belongs to an overlay while a popup, a rename, the palette,
/// the welcome, the help or the search is open.
pub proof fn law_overlays_own_keys(s: Stage)
    ensures
        s.ui.confirm_quit ==> s.keys_owned(),
        s.ui.confirm_close is Some ==> s.keys_owned(),
        s.ui.renaming is Some ==> s.keys_owned(),
        s.ui.palette_open ==> s.keys_owned(),
        s.ui.welcome_open ==> s.keys_owned(),
        s.ui.help_open ==> s.keys_owned(),
        s.ui.search_open ==> s.keys_owned(),
        !s.ui.confirm_quit && s.ui.confirm_close is None && s.ui.renaming is None
            && !s.ui.palette_open && !s.ui.welcome_open && !s.ui.help_open && !s.ui.search_open
            ==> !s.keys_owned(),
{
}

/// A closed tab is gone and no other is; the menus close, and what the pointer
/// held on the strip is let go.
pub proof fn law_close_removes_the_tab(v: AppView, i: int, env: Env)
    requires
        v.wf(),
        0 <= i < v.tabs.len(),
        v.tabs.len() > 1,
    ensures
        ({
            let w = v.close_tab(i, env);
            &&& w.tabs == v.tabs.remove(i) && w.detached == v.detached
            &&& 0 <= w.active < w.tabs.len()
            &&& w.st.ui.tab_menu is None && w.st.pointer.tab_drag is None
                && !w.st.pointer.selecting
            &&& w.st.due.paint_main && w.st.due.relink && w.st.due.exit == v.st.due.exit
            &&& i == v.active ==> !w.st.ui.search_open
            &&& i != v.active ==> w.st.ui.search_open == v.st.ui.search_open
        }),
        v.close_tab(v.tabs.len() as int, env) == v,
{
}

} // verus!
