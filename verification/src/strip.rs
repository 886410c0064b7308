//! Opening, switching and detaching tabs.

use vstd::prelude::*;

use crate::state::{
    detached_views, tab_views, App, AppView, Detached, DetachedUi, DetachedView, Due, Overlays,
    Pointer, Presence, Stage, Tab, TabActivity, TabView,
};
use crate::tabs::{active_after_remove, fresh_ui};
use crate::text::{decimal, push_decimal};
use crate::zone::ResizeZone;

verus! {

/// The title of the `n`-th tab until its shell or the user names it.
pub open spec fn default_title(n: nat) -> Seq<char> {
    "Tab "@ + decimal(n)
}

/// Writes the title of the `n`-th tab.
pub fn numbered_title(n: u64) -> (r: String)
    ensures
        r@ == default_title(n as nat),
{
    let mut s: String = "Tab ".to_owned();
    push_decimal(&mut s, n);
    s
}

/// A tab that has left the main window for a window that is still being made.
#[derive(Debug)]
pub struct Detaching {
    pub tab: Tab,
    /// Where the tab stood.
    pub idx: usize,
    /// Which tab was active then.
    pub prev_active: usize,
}

impl Stage {
    /// The pointer's leftovers of one tab do not carry over to the next.
    pub open spec fn spec_tab_changed(self) -> Stage {
        (Stage {
            pointer: Pointer { selecting: false, ..self.pointer },
            due: Due { reset_scroll: true, ..self.due },
            ..self
        }).relink_and_paint()
    }

    /// The pointer's leftovers of one tab do not carry over to the next.
    #[verifier::when_used_as_spec(spec_tab_changed)]
    pub fn tab_changed(self) -> (r: Stage)
        ensures
            r == self.spec_tab_changed(),
    {
        (Stage {
            pointer: Pointer { selecting: false, ..self.pointer },
            due: Due { reset_scroll: true, ..self.due },
            ..self
        }).relink_and_paint()
    }

    /// Tab `idx`, named `id`, leaves for a window of its own. The search bar
    /// goes only where it served that tab.
    #[verifier::opaque]
    pub open spec fn detached_away(self, idx: int, id: u64, was_active: bool) -> Stage {
        let s = self.forget_tab(idx);
        let searched = self.ui.search_open && was_active;
        Stage {
            ui: Overlays { search_open: self.ui.search_open && !was_active, ..s.ui },
            presence: Presence { switching_to_detached: true, ..s.presence },
            due: Due {
                search_clear: if searched {
                    Some(id)
                } else {
                    s.due.search_clear
                },
                ..s.due
            },
            ..s
        }
    }

    fn send_away(self, idx: usize, id: u64, was_active: bool) -> (r: Stage)
        ensures
            r == self.detached_away(idx as int, id, was_active),
    {
        reveal(Stage::detached_away);
        let searched: bool = self.ui.search_open && was_active;
        let search_open: bool = self.ui.search_open && !was_active;
        let s: Stage = self.forget(idx);
        let search_clear: Option<u64> = if searched {
            Some(id)
        } else {
            s.due.search_clear
        };
        Stage {
            ui: Overlays { search_open, ..s.ui },
            presence: Presence { switching_to_detached: true, ..s.presence },
            due: Due { search_clear, ..s.due },
            ..s
        }
    }
}

impl AppView {
    /// A new tab named `id` stands behind the others and is the active one.
    pub open spec fn new_tab(self, id: u64) -> AppView {
        let title = default_title((self.tabs.len() + 1) as nat);
        AppView {
            tabs: self.tabs.push(
                TabView {
                    id,
                    title,
                    default_title: title,
                    manually_renamed: false,
                    activity: TabActivity::Idle,
                },
            ),
            active: self.tabs.len() as int,
            st: self.st.paint_main(),
            ..self
        }
    }

    /// Tab `target` becomes the active one; where that is a change, the search
    /// bar closes first.
    pub open spec fn go_to(self, target: int) -> AppView {
        AppView {
            active: target,
            st: (if target != self.active {
                self.search_close().st
            } else {
                self.st
            }).tab_changed(),
            ..self
        }
    }

    /// The next or previous tab becomes active; the order wraps around.
    pub open spec fn switch_tab(self, forward: bool) -> AppView {
        let n = self.tabs.len() as int;
        if n <= 1 {
            self
        } else {
            self.go_to(
                if forward {
                    (self.active + 1) % n
                } else {
                    (self.active + n - 1) % n
                },
            )
        }
    }

    /// Tab `n`, or the last one, becomes active.
    pub open spec fn select_tab(self, n: int) -> AppView {
        if self.tabs.len() == 0 {
            self
        } else if n < self.tabs.len() {
            self.go_to(n)
        } else {
            self.go_to(self.tabs.len() - 1)
        }
    }

    /// Tab `idx` may leave the main window: it exists and is not the only one.
    pub open spec fn can_detach(self, idx: int) -> bool {
        self.tabs.len() >= 2 && 0 <= idx < self.tabs.len()
    }

    /// Tab `idx` has left the main window.
    pub open spec fn without(self, idx: int) -> AppView {
        (AppView {
            tabs: self.tabs.remove(idx),
            active: active_after_remove(self.active, idx, self.tabs.len() - 1),
            st: self.st.detached_away(idx, self.tabs[idx].id, idx == self.active),
            ..self
        }).settle_rename()
    }

    /// The tab that left has a window of its own now.
    pub open spec fn detach_done(self, tab: TabView, window: u64) -> AppView {
        AppView {
            detached: self.detached.push(DetachedView { window, tab, ui: fresh_ui() }),
            st: self.st.relink_and_paint(),
            ..self
        }
    }

    /// The window could not be made: the tab goes back where it stood, and the
    /// tab that was active then is active again.
    pub open spec fn detach_failed(self, tab: TabView, idx: int, prev_active: int) -> AppView {
        let n = self.tabs.len() as int;
        let at = if idx < n {
            idx
        } else {
            n
        };
        AppView {
            tabs: self.tabs.insert(at, tab),
            active: if prev_active <= n {
                prev_active
            } else {
                n
            },
            st: Stage {
                presence: Presence { switching_to_detached: false, ..self.st.presence },
                ..self.st
            }.paint_main(),
            ..self
        }
    }
}

/// Makes the interaction state of a window that opens.
pub fn new_ui() -> (r: DetachedUi)
    ensures
        r == fresh_ui(),
{
    DetachedUi {
        focused: false,
        occluded: false,
        selecting: false,
        dragging_scrollbar: false,
        bar_drag: false,
        grabbed: false,
        menu_open: false,
        menu_hover: None,
        link_hover: false,
        link_cell: None,
        resize_zone: ResizeZone::Interior,
        caret_anim: None,
        reflow_pending_at: None,
        last_bar_click: None,
        close_hover: false,
        calm: false,
        paint: false,
        relink: false,
        reflow: false,
        cursor: None,
    }
}

impl App {
    /// Puts a new tab behind the others and makes it the active one.
    pub fn new_tab(&mut self, id: u64)
        requires
            old(self)@.wf(),
            old(self).tabs@.len() < usize::MAX,
        ensures
            final(self)@ == old(self)@.new_tab(id),
            !old(self)@.over() ==> final(self)@.wf(),
    {
        let n: usize = self.tabs.len();
        let title: String = numbered_title(n as u64 + 1);
        let tab: Tab = Tab {
            id,
            default_title: title.clone(),
            title,
            manually_renamed: false,
            activity: TabActivity::Idle,
        };
        self.tabs.push(tab);
        self.active = n;
        self.st = self.st.paint_main();
        proof {
            assert(tab_views(self.tabs@) =~= tab_views(old(self).tabs@).push(tab@));
        }
    }

    fn go_to(&mut self, target: usize)
        ensures
            final(self)@ == old(self)@.go_to(target as int),
    {
        let id: Option<u64> = self.active_tab_id();
        let s: Stage = if target != self.active {
            self.st.close_search(id)
        } else {
            self.st
        };
        self.active = target;
        self.st = s.tab_changed();
    }

    /// Switches to the next or the previous tab.
    pub fn switch_tab(&mut self, forward: bool)
        requires
            old(self)@.wf(),
        ensures
            final(self)@ == old(self)@.switch_tab(forward),
            final(self)@.wf(),
    {
        let n: usize = self.tabs.len();
        if n <= 1 {
            return;
        }
        let target: usize = if forward {
            if self.active + 1 == n {
                0
            } else {
                self.active + 1
            }
        } else if self.active == 0 {
            n - 1
        } else {
            self.active - 1
        };
        proof {
            lemma_wrap(self.active as int, n as int);
        }
        self.go_to(target);
    }

    /// Switches to tab `n`, or to the last one where there are fewer.
    pub fn select_tab(&mut self, n: usize)
        requires
            old(self)@.wf(),
        ensures
            final(self)@ == old(self)@.select_tab(n as int),
            final(self)@.wf(),
    {
        if self.tabs.len() == 0 {
            return;
        }
        let last: usize = self.tabs.len() - 1;
        if n <= last {
            self.go_to(n);
        } else {
            self.go_to(last);
        }
    }

    /// Takes tab `idx` out of the main window for a window of its own. `None`
    /// where there is no such tab or it is the only one.
    pub fn detach_tab(&mut self, idx: usize) -> (r: Option<Detaching>)
        requires
            old(self)@.wf(),
        ensures
            r is Some <==> old(self)@.can_detach(idx as int),
            r is None ==> final(self)@ == old(self)@,
            r matches Some(d) ==> {
                &&& final(self)@ == old(self)@.without(idx as int)
                &&& d.tab@ == (TabView {
                    activity: TabActivity::Idle,
                    ..old(self)@.tabs[idx as int]
                })
                &&& d.idx == idx
                &&& d.prev_active == old(self).active
            },
            final(self)@.wf(),
    {
        if self.tabs.len() < 2 || idx >= self.tabs.len() {
            return None;
        }
        proof {
            lemma_without_wf(self@, idx as int);
            assert(tab_views(self.tabs@.remove(idx as int)) =~= tab_views(self.tabs@).remove(
                idx as int,
            ));
        }
        let prev_active: usize = self.active;
        let mut tab: Tab = self.tabs.remove(idx);
        tab.activity = TabActivity::Idle;
        self.active = crate::tabs::next_active(prev_active, idx, self.tabs.len());
        self.st = self.st.send_away(idx, tab.id, idx == prev_active);
        self.settle_rename();
        Some(Detaching { tab, idx, prev_active })
    }

    /// Gives the tab that left its window.
    pub fn detach_done(&mut self, d: Detaching, window: u64)
        requires
            old(self)@.wf(),
        ensures
            final(self)@ == old(self)@.detach_done(d.tab@, window),
            !old(self)@.over() ==> final(self)@.wf(),
    {
        let dw: Detached = Detached { window, tab: d.tab, ui: new_ui() };
        self.detached.push(dw);
        self.st = self.st.relink_and_paint();
        proof {
            assert(detached_views(self.detached@) =~= detached_views(old(self).detached@).push(dw@));
        }
    }

    /// Puts the tab back because its window could not be made.
    pub fn detach_failed(&mut self, d: Detaching)
        requires
            old(self)@.wf(),
            old(self).tabs@.len() < usize::MAX,
        ensures
            final(self)@ == old(self)@.detach_failed(d.tab@, d.idx as int, d.prev_active as int),
            !old(self)@.over() ==> final(self)@.wf(),
    {
        let n: usize = self.tabs.len();
        let at: usize = if d.idx < n {
            d.idx
        } else {
            n
        };
        let active: usize = if d.prev_active <= n {
            d.prev_active
        } else {
            n
        };
        let ghost tab_v = d.tab@;
        self.tabs.insert(at, d.tab);
        self.active = active;
        self.st = (Stage {
            presence: Presence { switching_to_detached: false, ..self.st.presence },
            ..self.st
        }).paint_main();
        proof {
            assert(tab_views(self.tabs@) =~= tab_views(old(self).tabs@).insert(at as int, tab_v));
        }
    }
}

pub(crate) proof fn lemma_wrap(a: int, n: int)
    requires
        0 <= a < n,
    ensures
        (a + 1) % n == if a + 1 == n {
            0
        } else {
            a + 1
        },
        (a + n - 1) % n == if a == 0 {
            n - 1
        } else {
            a - 1
        },
{
    vstd::arithmetic::div_mod::lemma_small_mod((if a + 1 == n { 0 } else { a + 1 }) as nat, n as nat);
    vstd::arithmetic::div_mod::lemma_mod_self_0(n);
    if n == 1 {
    } else if a == 0 {
        vstd::arithmetic::div_mod::lemma_small_mod((n - 1) as nat, n as nat);
    } else {
        vstd::arithmetic::div_mod::lemma_small_mod((a - 1) as nat, n as nat);
        vstd::arithmetic::div_mod::lemma_mod_add_multiples_vanish(a - 1, n);
    }
}

proof fn lemma_without_wf(v: AppView, idx: int)
    requires
        v.wf(),
        v.can_detach(idx),
    ensures
        v.without(idx).wf(),
{
    reveal(Stage::detached_away);
}

/// One step forward and one step back, in either order, return to the tab that
/// was active.
pub proof fn law_switch_inverse(v: AppView, forward: bool)
    requires
        v.wf(),
    ensures
        v.switch_tab(forward).switch_tab(!forward).active == v.active,
{
    let n = v.tabs.len() as int;
    if n > 1 {
        lemma_wrap(v.active, n);
        lemma_wrap(v.switch_tab(forward).active, n);
    }
}

/// Whenever another tab becomes active the search bar is closed, and it is the
/// tab left behind whose search state is dropped.
pub proof fn law_search_follows_active(v: AppView, target: int)
    requires
        v.wf(),
        v.tabs.len() > 0,
        v.st.ui.search_open,
        0 <= target < v.tabs.len(),
        target != v.active,
    ensures
        !v.go_to(target).st.ui.search_open,
        v.go_to(target).st.due.search_clear == Some(v.tabs[v.active].id),
{
}

/// A detachment whose window could not be made is undone: every tab stands
/// where it stood, only its indicator cleared, and the same tab is active. The
/// other windows, the settings and the clocks are untouched, and a rename of a
/// tab before it, or the question whether to close one, goes on.
pub proof fn law_failed_detach_restores_tabs(v: AppView, idx: int)
    requires
        v.wf(),
        v.can_detach(idx),
    ensures
        ({
            let tab = TabView { activity: TabActivity::Idle, ..v.tabs[idx] };
            let back = v.without(idx).detach_failed(tab, idx, v.active);
            &&& back.tabs == v.tabs.update(idx, tab)
            &&& back.active == v.active
            &&& back.st.presence == (Presence { switching_to_detached: false, ..v.st.presence })
            &&& back.detached == v.detached
            &&& back.palette == v.palette
            &&& back.hint == v.hint
            &&& back.text == v.text
            &&& back.st.prefs == v.st.prefs
            &&& back.st.panel == v.st.panel
            &&& back.st.timers == v.st.timers
            &&& (v.st.ui.renaming matches Some(i) ==> i < idx) ==> back.st.ui.renaming
                == v.st.ui.renaming
            &&& (v.st.ui.renaming matches Some(i) && i < idx) ==> back.rename_buf == v.rename_buf
            &&& (v.st.ui.confirm_close matches Some(i) ==> i < idx) ==> back.st.ui.confirm_close
                == v.st.ui.confirm_close
        }),
{
    reveal(Stage::detached_away);
    let tab = TabView { activity: TabActivity::Idle, ..v.tabs[idx] };
    assert(v.without(idx).detach_failed(tab, idx, v.active).tabs =~= v.tabs.update(idx, tab));
}

/// Detaching never empties the main window.
pub proof fn law_detach_leaves_a_tab(v: AppView, idx: int)
    requires
        v.can_detach(idx),
    ensures
        v.without(idx).tabs.len() == v.tabs.len() - 1,
        v.without(idx).tabs.len() >= 1,
{
}

/// A tab that is detached and then reattached is the last tab and the active
/// one, unchanged but for its indicator.
pub proof fn law_detach_reattach(v: AppView, idx: int, window: u64, env: crate::presence::Env)
    requires
        v.wf(),
        v.can_detach(idx),
    ensures
        ({
            let tab = TabView { activity: TabActivity::Idle, ..v.tabs[idx] };
            let away = v.without(idx).detach_done(tab, window);
            let back = away.reattach(v.detached.len() as int, env);
            &&& back.tabs == v.tabs.remove(idx).push(tab)
            &&& back.tabs[back.active] == tab
            &&& back.detached == v.detached
        }),
{
    let tab = TabView { activity: TabActivity::Idle, ..v.tabs[idx] };
    let away = v.without(idx).detach_done(tab, window);
    let back = away.reattach(v.detached.len() as int, env);
    assert(back.tabs =~= v.tabs.remove(idx).push(tab));
    assert(back.detached =~= v.detached);
}

/// A new tab is the last one and the active one, is titled by its place in the
/// strip, and leaves the others as they are.
pub proof fn law_new_tab(v: AppView, id: u64)
    ensures
        ({
            let w = v.new_tab(id);
            let t = w.tabs.last();
            &&& w.tabs.len() == v.tabs.len() + 1 && w.tabs.drop_last() == v.tabs
            &&& w.active == w.tabs.len() - 1
            &&& t.id == id && !t.manually_renamed && t.activity == TabActivity::Idle
            &&& t.title == seq!['T', 'a', 'b', ' '] + decimal(w.tabs.len())
            &&& t.default_title == t.title
            &&& w.st.due.paint_main && w.detached == v.detached
        }),
{
    reveal_strlit("Tab ");
    assert("Tab "@ =~= seq!['T', 'a', 'b', ' ']);
}

/// Going to another tab makes it the active one, drops a selection under way,
/// and paints it from its foot.
pub proof fn law_going_to_a_tab(v: AppView, target: int)
    ensures
        ({
            let w = v.go_to(target);
            &&& w.active == target && w.tabs == v.tabs && w.detached == v.detached
            &&& !w.st.pointer.selecting && w.st.due.reset_scroll && w.st.due.relink
                && w.st.due.paint_main
            &&& target == v.active ==> w.st.ui == v.st.ui
            &&& target != v.active ==> !w.st.ui.search_open
        }),
{
}

/// Switching goes to the neighbour, round at both ends, and not at all with a
/// single tab.
pub proof fn law_switch_goes_to_the_neighbour(v: AppView)
    requires
        0 <= v.active < v.tabs.len(),
    ensures
        v.active + 1 < v.tabs.len() ==> v.switch_tab(true).active == v.active + 1,
        v.active + 1 == v.tabs.len() ==> v.switch_tab(true).active == 0,
        v.active > 0 ==> v.switch_tab(false).active == v.active - 1,
        v.active == 0 ==> v.switch_tab(false).active == v.tabs.len() - 1,
        v.tabs.len() == 1 ==> v.switch_tab(true) == v && v.switch_tab(false) == v,
{
    let n = v.tabs.len() as int;
    if v.active + 1 < n {
        vstd::arithmetic::div_mod::lemma_small_mod((v.active + 1) as nat, n as nat);
    } else {
        vstd::arithmetic::div_mod::lemma_mod_self_0(n);
    }
    if v.active == 0 {
        vstd::arithmetic::div_mod::lemma_small_mod((n - 1) as nat, n as nat);
    } else {
        vstd::arithmetic::div_mod::lemma_small_mod((v.active - 1) as nat, n as nat);
        vstd::arithmetic::div_mod::lemma_mod_add_multiples_vanish(v.active - 1, n);
    }
}

/// Selecting a tab by its number goes to it, to the last one where there are
/// fewer.
pub proof fn law_select_goes_to_the_number(v: AppView, n: int)
    requires
        v.tabs.len() > 0,
        0 <= n,
    ensures
        n < v.tabs.len() ==> v.select_tab(n).active == n,
        n >= v.tabs.len() ==> v.select_tab(n).active == v.tabs.len() - 1,
        v.select_tab(n).tabs == v.tabs,
{
}

/// A tab that is detached leaves the strip; the active tab stays the active
/// one, and where it left itself the search closes with it.
pub proof fn law_detached_tab_leaves(v: AppView, idx: int)
    requires
        v.wf(),
        v.can_detach(idx),
    ensures
        ({
            let w = v.without(idx);
            &&& w.tabs == v.tabs.remove(idx) && 0 <= w.active < w.tabs.len()
            &&& idx != v.active ==> w.tabs[w.active] == v.tabs[v.active]
            &&& idx != v.active ==> w.st.ui.search_open == v.st.ui.search_open
                && w.st.due.search_clear == v.st.due.search_clear
            &&& idx == v.active ==> !w.st.ui.search_open
            &&& idx == v.active && v.st.ui.search_open ==> w.st.due.search_clear == Some(
                v.tabs[idx].id,
            )
            &&& w.st.presence.switching_to_detached
            &&& w.st.ui.tab_menu is None && w.st.pointer.tab_drag is None && !w.st.pointer.selecting
        }),
{
    reveal(Stage::detached_away);
}

/// The window that a tab was detached into is the last one, holds that tab, and
/// starts with nothing held, hovered or open.
pub proof fn law_detached_window_starts_clean(v: AppView, tab: TabView, window: u64)
    ensures
        ({
            let w = v.detach_done(tab, window);
            let d = w.detached.last();
            &&& w.detached.len() == v.detached.len() + 1 && w.detached.drop_last() == v.detached
            &&& d.window == window && d.tab == tab
            &&& !d.ui.focused && !d.ui.occluded && !d.ui.selecting && !d.ui.dragging_scrollbar
                && !d.ui.bar_drag && !d.ui.grabbed && !d.ui.menu_open && !d.ui.link_hover
                && !d.ui.close_hover
            &&& d.ui.caret_anim is None && d.ui.reflow_pending_at is None && d.ui.last_bar_click
                is None && d.ui.cursor is None
            &&& d.ui.resize_zone == ResizeZone::Interior
            &&& w.tabs == v.tabs && w.active == v.active && w.st.due.relink && w.st.due.paint_main
        }),
{
    assert(v.detach_done(tab, window).detached.drop_last() =~= v.detached);
}

/// A tab can be detached where another one stays.
pub proof fn law_last_tab_stays(v: AppView, idx: int)
    ensures
        v.tabs.len() < 2 ==> !v.can_detach(idx),
        v.tabs.len() >= 2 && 0 <= idx < v.tabs.len() ==> v.can_detach(idx),
        v.can_detach(idx) ==> 0 <= idx < v.tabs.len(),
{
}

/// A detached window starts with nothing due but to be shown as it is.
pub proof fn law_detached_window_starts_with_nothing_due(v: AppView, tab: TabView, window: u64)
    ensures
        ({
            let u = v.detach_done(tab, window).detached.last().ui;
            &&& !u.calm && !u.paint && !u.relink && !u.reflow
            &&& u.menu_hover is None && u.link_cell is None
        }),
{
}

} // verus!
