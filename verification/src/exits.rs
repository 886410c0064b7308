//! What happens when shells exit.

use vstd::prelude::*;

use crate::presence::{Env, LAST_INSTANT};
use crate::state::{
    detached_views, tab_views, App, AppView, Detached, Due, Overlays, Pointer, Stage, Tab,
};
use crate::tabs::{lemma_reattached_exit, lemma_reattached_frame};

verus! {

/// The entries of `s` from index `lo` on whose index is not in `gone`.
pub open spec fn kept<T>(s: Seq<T>, gone: Set<int>, lo: int) -> Seq<T>
    decreases s.len() - lo,
{
    if lo < 0 || lo >= s.len() {
        seq![]
    } else if gone.contains(lo) {
        kept(s, gone, lo + 1)
    } else {
        seq![s[lo]] + kept(s, gone, lo + 1)
    }
}

/// How many indices from `lo` up to, and without, `hi` are in `gone`.
pub open spec fn count_gone(gone: Set<int>, lo: int, hi: int) -> int
    decreases hi - lo,
{
    if lo >= hi {
        0
    } else {
        count_gone(gone, lo + 1, hi) + if gone.contains(lo) {
            1int
        } else {
            0
        }
    }
}

/// An index after everything in `gone` from `lo` on has left.
pub open spec fn index_after(gone: Set<int>, lo: int, idx: Option<usize>) -> Option<usize> {
    match idx {
        Some(j) => if j >= lo && gone.contains(j as int) {
            None
        } else {
            Some((j - count_gone(gone, lo, j as int)) as usize)
        },
        None => None,
    }
}

/// The tab indices in a list.
pub open spec fn index_set(exited: Seq<usize>) -> Set<int> {
    Set::new(|i: int| exists|k: int| 0 <= k < exited.len() && #[trigger] exited[k] == i)
}

proof fn lemma_count_bounds(gone: Set<int>, lo: int, hi: int)
    ensures
        0 <= count_gone(gone, lo, hi),
        lo <= hi ==> count_gone(gone, lo, hi) <= hi - lo,
    decreases hi - lo,
{
    if lo < hi {
        lemma_count_bounds(gone, lo + 1, hi);
    }
}

pub(crate) proof fn lemma_kept_len<T>(s: Seq<T>, gone: Set<int>, lo: int)
    requires
        0 <= lo <= s.len(),
    ensures
        kept(s, gone, lo).len() == s.len() - lo - count_gone(gone, lo, s.len() as int),
    decreases s.len() - lo,
{
    if lo < s.len() {
        lemma_kept_len(s, gone, lo + 1);
    }
}

/// An entry that stays is found where the count of those before it that left
/// says.
pub(crate) proof fn lemma_kept_at<T>(s: Seq<T>, gone: Set<int>, lo: int, a: int)
    requires
        0 <= lo <= a < s.len(),
        !gone.contains(a),
    ensures
        0 <= a - lo - count_gone(gone, lo, a) < kept(s, gone, lo).len(),
        kept(s, gone, lo)[a - lo - count_gone(gone, lo, a)] == s[a],
    decreases a - lo,
{
    lemma_count_bounds(gone, lo, a);
    if lo < a {
        lemma_kept_at(s, gone, lo + 1, a);
    }
}

pub(crate) fn holds(list: &Vec<usize>, i: usize) -> (r: bool)
    ensures
        r == index_set(list@).contains(i as int),
{
    let mut k: usize = 0;
    while k < list.len()
        invariant
            0 <= k <= list@.len(),
            forall|j: int| 0 <= j < k ==> #[trigger] list@[j] != i,
        decreases list@.len() - k,
    {
        if list[k] == i {
            assert(list@[k as int] == i);
            return true;
        }
        k = k + 1;
    }
    false
}

impl AppView {
    /// The tabs in `gone` are out, and every index has moved with them.
    pub open spec fn moved(self, gone: Set<int>) -> AppView {
        let s = if gone.contains(self.active) {
            self.search_close()
        } else {
            self
        };
        AppView {
            tabs: kept(self.tabs, gone, 0),
            active: self.active - count_gone(gone, 0, self.active),
            st: Stage {
                ui: Overlays {
                    renaming: index_after(gone, 0, s.st.ui.renaming),
                    confirm_close: index_after(gone, 0, s.st.ui.confirm_close),
                    ..s.st.ui
                },
                ..s.st
            },
            ..s
        }
    }

    /// Nothing is left when the tabs in `gone` are out.
    pub open spec fn all_gone(self, gone: Set<int>) -> bool {
        kept(self.tabs, gone, 0).len() == 0 && self.detached.len() == 0
    }

    /// An active index past the end names the last tab; what cannot follow the
    /// tabs is dropped.
    pub open spec fn clamped(self) -> AppView {
        (AppView {
            active: if self.active < self.tabs.len() {
                self.active
            } else {
                self.tabs.len() - 1
            },
            st: (Stage {
                ui: self.st.menu_closed().ui,
                pointer: Pointer { selecting: false, tab_drag: None, ..self.st.pointer },
                ..self.st
            }).paint_main(),
            ..self
        }).settle_rename()
    }

    /// The tabs in `gone` have left because their shells exited. When no tab
    /// is left, the first detached one comes back; when there is none either,
    /// the application ends.
    pub open spec fn tabs_exited(self, gone: Set<int>, env: Env) -> AppView {
        let m = self.moved(gone);
        if self.all_gone(gone) {
            AppView { st: Stage { due: Due { exit: true, ..m.st.due }, ..m.st }, ..m }
        } else if m.tabs.len() == 0 {
            m.reattach(0, env).clamped()
        } else {
            m.clamped()
        }
    }
}

/// How many of the indices below `hi` are listed.
fn count_below(list: &Vec<usize>, hi: usize) -> (r: usize)
    ensures
        r == count_gone(index_set(list@), 0, hi as int),
        r <= hi,
{
    let mut k: usize = hi;
    let mut c: usize = 0;
    while k > 0
        invariant
            0 <= k <= hi,
            c == count_gone(index_set(list@), k as int, hi as int),
            c <= hi - k,
        decreases k,
    {
        k = k - 1;
        if holds(list, k) {
            c = c + 1;
        }
    }
    c
}

/// Moves an index after the listed entries have left.
fn shift(list: &Vec<usize>, idx: Option<usize>) -> (r: Option<usize>)
    ensures
        r == index_after(index_set(list@), 0, idx),
{
    match idx {
        Some(j) => if holds(list, j) {
            None
        } else {
            Some(j - count_below(list, j))
        },
        None => None,
    }
}

/// What stays, seen through `f`, is what stays of the view.
proof fn lemma_kept_map<T, V>(s: Seq<T>, f: spec_fn(T) -> V, gone: Set<int>, lo: int)
    requires
        0 <= lo <= s.len(),
    ensures
        kept(s, gone, lo).map_values(f) == kept(s.map_values(f), gone, lo),
    decreases s.len() - lo,
{
    if lo < s.len() {
        lemma_kept_map(s, f, gone, lo + 1);
    }
    assert(kept(s, gone, lo).map_values(f) =~= kept(s.map_values(f), gone, lo));
}

/// Takes the listed entries out, the last one first.
fn drop_listed<T>(v: &mut Vec<T>, list: &Vec<usize>)
    ensures
        final(v)@ == kept(old(v)@, index_set(list@), 0),
{
    let mut i: usize = v.len();
    let ghost all = v@;
    let ghost gone = index_set(list@);
    proof {
        assert(all.take(i as int) + kept(all, gone, i as int) =~= all);
    }
    while i > 0
        invariant
            0 <= i <= all.len(),
            gone == index_set(list@),
            v@ == all.take(i as int) + kept(all, gone, i as int),
        decreases i,
    {
        i = i - 1;
        proof {
            assert(all.take(i + 1) =~= all.take(i as int).push(all[i as int]));
        }
        if holds(list, i) {
            let _gone: T = v.remove(i);
        }
        proof {
            assert(v@ =~= all.take(i as int) + kept(all, gone, i as int));
        }
    }
    proof {
        assert(all.take(0) + kept(all, gone, 0) =~= kept(all, gone, 0));
    }
}

/// Takes the listed tabs out.
fn drop_tabs(tabs: &mut Vec<Tab>, list: &Vec<usize>)
    ensures
        tab_views(final(tabs)@) == kept(tab_views(old(tabs)@), index_set(list@), 0),
{
    proof {
        lemma_kept_map(tabs@, |t: Tab| t@, index_set(list@), 0);
    }
    drop_listed(tabs, list);
}

/// Takes the listed detached windows out.
pub(crate) fn drop_windows(windows: &mut Vec<Detached>, list: &Vec<usize>)
    ensures
        detached_views(final(windows)@) == kept(
            detached_views(old(windows)@),
            index_set(list@),
            0,
        ),
{
    proof {
        lemma_kept_map(windows@, |d: Detached| d@, index_set(list@), 0);
    }
    drop_listed(windows, list);
}

impl Stage {
    fn shift_indices(self, list: &Vec<usize>) -> (r: Stage)
        ensures
            r == (Stage {
                ui: Overlays {
                    renaming: index_after(index_set(list@), 0, self.ui.renaming),
                    confirm_close: index_after(index_set(list@), 0, self.ui.confirm_close),
                    ..self.ui
                },
                ..self
            }),
    {
        let renaming: Option<usize> = shift(list, self.ui.renaming);
        let confirm_close: Option<usize> = shift(list, self.ui.confirm_close);
        Stage { ui: Overlays { renaming, confirm_close, ..self.ui }, ..self }
    }
}

impl App {
    /// Closes every tab whose index is listed and tells whether the
    /// application goes on.
    pub fn close_exited_tabs(&mut self, exited: &Vec<usize>, env: &Env) -> (r: bool)
        requires
            old(self)@.wf(),
            env.now <= LAST_INSTANT,
        ensures
            exited@.len() == 0 ==> r && final(self)@ == old(self)@,
            exited@.len() > 0 ==> {
                &&& final(self)@ == old(self)@.tabs_exited(index_set(exited@), *env)
                &&& r == !old(self)@.all_gone(index_set(exited@))
            },
            final(self)@.wf(),
    {
        if exited.len() == 0 {
            return true;
        }
        let ghost gone = index_set(exited@);
        proof {
            lemma_tabs_exited_wf(self@, gone, *env);
        }
        self.take_exited(exited);
        if self.tabs.len() == 0 {
            if self.detached.len() == 0 {
                self.st = Stage { due: Due { exit: true, ..self.st.due }, ..self.st };
                return false;
            }
            self.reattach_tab(0, env);
        }
        self.clamp_after_exits();
        true
    }

    fn take_exited(&mut self, exited: &Vec<usize>)
        ensures
            final(self)@ == old(self)@.moved(index_set(exited@)),
    {
        let id: Option<u64> = self.active_tab_id();
        let s: Stage = if holds(exited, self.active) {
            self.st.close_search(id)
        } else {
            self.st
        };
        self.st = s.shift_indices(exited);
        self.active = self.active - count_below(exited, self.active);
        drop_tabs(&mut self.tabs, exited);
    }

    fn clamp_after_exits(&mut self)
        requires
            old(self).tabs@.len() > 0,
        ensures
            final(self)@ == old(self)@.clamped(),
    {
        let n: usize = self.tabs.len();
        self.active = if self.active < n {
            self.active
        } else {
            n - 1
        };
        self.st = (Stage {
            ui: self.st.menu_closed().ui,
            pointer: Pointer { selecting: false, tab_drag: None, ..self.st.pointer },
            ..self.st
        }).paint_main();
        self.settle_rename();
    }
}

/// Closing tabs because their shells exited keeps every index valid.
proof fn lemma_tabs_exited_wf(v: AppView, gone: Set<int>, env: Env)
    requires
        v.wf(),
    ensures
        v.tabs_exited(gone, env).wf(),
{
    let left = kept(v.tabs, gone, 0);
    let m = v.moved(gone);
    lemma_count_bounds(gone, 0, v.active);
    lemma_kept_len(v.tabs, gone, 0);
    if !v.over() {
        lemma_shifted_in_range(v, gone, v.st.ui.renaming);
        lemma_shifted_in_range(v, gone, v.st.ui.confirm_close);
    }
    if left.len() == 0 && v.detached.len() > 0 {
        let d = m.detached[0];
        lemma_reattached_frame(m.search_close().st, d.window, d.tab.id, env);
    }
}

/// An index that named a tab names a tab after the move, or none.
proof fn lemma_shifted_in_range(v: AppView, gone: Set<int>, idx: Option<usize>)
    requires
        idx matches Some(j) ==> j < if v.tabs.len() > 0 {
            v.tabs.len() as int
        } else {
            1
        },
    ensures
        index_after(gone, 0, idx) matches Some(k) ==> k < if kept(v.tabs, gone, 0).len() > 0 {
            kept(v.tabs, gone, 0).len() as int
        } else {
            1
        },
{
    if let Some(j) = idx {
        lemma_count_bounds(gone, 0, j as int);
        if v.tabs.len() > 0 && !gone.contains(j as int) {
            lemma_kept_at(v.tabs, gone, 0, j as int);
        }
    }
}

/// A tab that was active and whose shell lives on is still the active one.
pub proof fn law_active_survives_exits(v: AppView, gone: Set<int>, env: Env)
    requires
        v.wf(),
        v.tabs.len() > 0,
        !gone.contains(v.active),
    ensures
        v.tabs_exited(gone, env).active_id() == v.active_id(),
{
    lemma_kept_at(v.tabs, gone, 0, v.active);
}

/// The application ends by itself only when no tab is left anywhere.
pub proof fn law_exit_only_when_nothing_left(v: AppView, gone: Set<int>, env: Env)
    requires
        v.wf(),
        !v.st.due.exit,
    ensures
        v.tabs_exited(gone, env).st.due.exit <==> v.all_gone(gone),
        v.all_gone(gone) ==> v.detached.len() == 0 && forall|j: int|
            0 <= j < v.tabs.len() ==> #[trigger] gone.contains(j),
{
    lemma_search_keeps_exit(v);
    if kept(v.tabs, gone, 0).len() == 0 && v.detached.len() > 0 {
        let m = v.moved(gone);
        let d = m.detached[0];
        lemma_reattached_exit(m.search_close().st, d.window, d.tab.id, env);
    }
    assert forall|j: int| v.all_gone(gone) && 0 <= j < v.tabs.len() implies #[trigger] gone.contains(
        j,
    ) by {
        if !gone.contains(j) {
            lemma_kept_at(v.tabs, gone, 0, j);
        }
    }
}

proof fn lemma_search_keeps_exit(v: AppView)
    ensures
        v.search_close().st.due.exit == v.st.due.exit,
{
}

/// Every tab whose shell lives on is still there, in the same order.
pub proof fn law_living_tabs_stay(v: AppView, gone: Set<int>, env: Env, a: int)
    requires
        v.wf(),
        0 <= a < v.tabs.len(),
        !gone.contains(a),
    ensures
        v.tabs_exited(gone, env).tabs[a - count_gone(gone, 0, a)] == v.tabs[a],
{
    lemma_kept_at(v.tabs, gone, 0, a);
}

/// The tabs whose shells have gone leave, and only they: as many stay as live
/// on, each of them one that was there.
pub proof fn law_exited_tabs_leave(v: AppView, gone: Set<int>, env: Env)
    requires
        v.wf(),
        !v.all_gone(gone),
        kept(v.tabs, gone, 0).len() > 0,
    ensures
        v.tabs_exited(gone, env).tabs.len() + count_gone(gone, 0, v.tabs.len() as int)
            == v.tabs.len(),
        v.tabs_exited(gone, env).detached == v.detached,
        v.tabs_exited(gone, env).st.due.paint_main,
{
    lemma_kept_len(v.tabs, gone, 0);
}

/// The indices that are gone are counted one by one.
pub proof fn law_gone_are_counted(gone: Set<int>, lo: int, hi: int)
    requires
        lo <= hi,
    ensures
        count_gone(gone, lo, lo) == 0,
        gone.contains(hi) ==> count_gone(gone, lo, hi + 1) == count_gone(gone, lo, hi) + 1,
        !gone.contains(hi) ==> count_gone(gone, lo, hi + 1) == count_gone(gone, lo, hi),
    decreases hi - lo,
{
    if lo < hi {
        law_gone_are_counted(gone, lo + 1, hi);
    } else {
        assert(count_gone(gone, hi + 1, hi + 1) == 0);
    }
}

/// A tab that is renamed or asked about while others leave is still the one;
/// where it leaves itself nothing is renamed or asked about.
pub proof fn law_exits_move_indices(v: AppView, gone: Set<int>, j: usize, env: Env)
    requires
        v.wf(),
        0 <= j < v.tabs.len(),
        kept(v.tabs, gone, 0).len() > 0,
    ensures
        ({
            let w = v.tabs_exited(gone, env);
            &&& v.st.ui.renaming == Some(j) && !gone.contains(j as int) ==> (
            w.st.ui.renaming matches Some(k) && w.tabs[k as int] == v.tabs[j as int]
                && w.rename_buf == v.rename_buf)
            &&& v.st.ui.renaming == Some(j) && gone.contains(j as int) ==> w.st.ui.renaming is None
                && w.rename_buf.len() == 0
            &&& v.st.ui.confirm_close == Some(j) && !gone.contains(j as int) ==> (
            w.st.ui.confirm_close matches Some(k) && w.tabs[k as int] == v.tabs[j as int])
            &&& v.st.ui.confirm_close == Some(j) && gone.contains(j as int)
                ==> w.st.ui.confirm_close is None
        }),
{
    lemma_count_bounds(gone, 0, j as int);
    if !gone.contains(j as int) {
        lemma_kept_at(v.tabs, gone, 0, j as int);
    }
}

/// Where tabs leave, the menus of the strip close and what the pointer held
/// there is let go; the search closes with the active tab.
pub proof fn law_exits_tidy_up(v: AppView, gone: Set<int>, env: Env)
    requires
        v.wf(),
        kept(v.tabs, gone, 0).len() > 0,
    ensures
        ({
            let w = v.tabs_exited(gone, env);
            &&& w.st.ui.tab_menu is None && !w.st.pointer.selecting && w.st.pointer.tab_drag is None
            &&& v.st.ui.search_open && gone.contains(v.active) ==> !w.st.ui.search_open
            &&& !gone.contains(v.active) ==> w.st.ui.search_open == v.st.ui.search_open
            &&& 0 <= w.active < w.tabs.len()
        }),
{
    lemma_kept_len(v.tabs, gone, 0);
    lemma_count_bounds(gone, 0, v.active);
}

/// Where the last tab of the strip leaves, the first detached one takes its
/// place.
pub proof fn law_empty_strip_takes_a_window(v: AppView, gone: Set<int>, env: Env)
    requires
        v.wf(),
        kept(v.tabs, gone, 0).len() == 0,
        v.detached.len() > 0,
    ensures
        ({
            let w = v.tabs_exited(gone, env);
            &&& w.tabs.len() == 1 && w.tabs[0].id == v.detached[0].tab.id
            &&& w.active == 0 && w.detached == v.detached.remove(0)
        }),
{
}

/// The indices of the tabs that exited are the ones listed.
pub proof fn law_listed_are_gone(exited: Seq<usize>, i: usize)
    ensures
        index_set(exited).contains(i as int) <==> exited.contains(i),
{
    if exited.contains(i) {
        let k = choose|k: int| 0 <= k < exited.len() && exited[k] == i;
        assert(exited[k] == i as int);
    }
}

} // verus!
