//! Tab titles and the indicators of unseen activity.

use vstd::prelude::*;

use crate::state::{tab_views, App, AppView, Overlays, Stage, Tab, TabActivity, TabView};
use crate::text::{decimal, push_decimal, trim, trimmed};

verus! {

/// The title to show after the shell set (`Some`) or cleared (`None`) its own:
/// unchanged on a tab that the user named, else the shell's, else the default.
pub fn resolve_title(update: Option<String>, manually_renamed: bool, default_title: &str) -> (r:
    Option<String>)
    ensures
        manually_renamed <==> r is None,
        !manually_renamed ==> r->0@ == match update {
            Some(t) => t@,
            None => default_title@,
        },
{
    if manually_renamed {
        return None;
    }
    match update {
        Some(t) => Some(t),
        None => Some(default_title.to_owned()),
    }
}

/// The indicator of an inactive tab after a drain: a bell always shows and
/// stays; output lights a tab that is dark, unless `suppress_output`.
pub open spec fn activity_after(
    current: TabActivity,
    had_output: bool,
    rang_bell: bool,
    suppress_output: bool,
) -> TabActivity {
    if rang_bell {
        TabActivity::Bell
    } else if current == TabActivity::Idle && had_output && !suppress_output {
        TabActivity::Output
    } else {
        current
    }
}

/// The indicator of an inactive tab after a drain.
pub fn next_activity(
    current: TabActivity,
    had_output: bool,
    rang_bell: bool,
    suppress_output: bool,
) -> (r: TabActivity)
    ensures
        r == activity_after(current, had_output, rang_bell, suppress_output),
{
    if rang_bell {
        TabActivity::Bell
    } else if had_output && !suppress_output && current == TabActivity::Idle {
        TabActivity::Output
    } else {
        current
    }
}

/// A bell is never taken back by later output, and the grace after a reflow
/// never hides one.
pub proof fn law_bell_is_sticky(current: TabActivity, had: bool, rang: bool, suppress: bool)
    requires
        current == TabActivity::Bell || rang,
    ensures
        activity_after(current, had, rang, suppress) == TabActivity::Bell,
{
}

/// No drain darkens an indicator.
pub proof fn law_activity_never_fades(current: TabActivity, had: bool, rang: bool, suppress: bool)
    requires
        current != TabActivity::Idle,
    ensures
        activity_after(current, had, rang, suppress) != TabActivity::Idle,
{
}

/// The title that a drain leaves on a tab. `update` is what the shell did to
/// its title, if anything.
pub open spec fn title_after(tab: TabView, update: Option<Option<Seq<char>>>) -> Seq<char> {
    match update {
        Some(u) if !tab.manually_renamed => match u {
            Some(t) => t,
            None => tab.default_title,
        },
        _ => tab.title,
    }
}

/// Once the user has named a tab no shell renames it.
pub proof fn law_manual_rename_wins(tab: TabView, update: Option<Option<Seq<char>>>)
    requires
        tab.manually_renamed,
    ensures
        title_after(tab, update) == tab.title,
{
}

/// Applies what the shell did to its title and tells whether the shown title
/// changed.
pub fn apply_title(tab: &mut Tab, update: Option<Option<String>>) -> (changed: bool)
    ensures
        final(tab)@ == (TabView {
            title: title_after(old(tab)@, title_view(update)),
            ..old(tab)@
        }),
        changed == (final(tab)@.title != old(tab)@.title),
{
    match update {
        Some(u) => {
            let new: Option<String> = resolve_title(u, tab.manually_renamed, tab.default_title.as_str());
            match new {
                Some(t) => {
                    if t != tab.title {
                        tab.title = t;
                        return true;
                    }
                    false
                },
                None => false,
            }
        },
        None => false,
    }
}

/// The characters of a title update.
pub open spec fn title_view(u: Option<Option<String>>) -> Option<Option<Seq<char>>> {
    match u {
        Some(Some(t)) => Some(Some(t@)),
        Some(None) => Some(None),
        None => None,
    }
}

impl AppView {
    /// The rename that is under way ends: its text, without the white space
    /// around it, becomes the title for good; an empty one changes nothing.
    pub open spec fn renamed(self) -> AppView {
        let trimmed = trim(self.rename_buf);
        match self.st.ui.renaming {
            Some(i) => AppView {
                tabs: if i < self.tabs.len() && trimmed.len() > 0 {
                    self.tabs.update(
                        i as int,
                        TabView { title: trimmed, manually_renamed: true, ..self.tabs[i as int] },
                    )
                } else {
                    self.tabs
                },
                rename_buf: seq![],
                st: (Stage { ui: Overlays { renaming: None, ..self.st.ui }, ..self.st }).paint_main(),
                ..self
            },
            None => self,
        }
    }

    /// The label that names tab `i` to the user: its title, with its number in
    /// front where it is not the default one.
    pub open spec fn label(self, i: int) -> Seq<char> {
        let t = self.tabs[i];
        if t.title == t.default_title {
            t.title
        } else {
            "Tab "@ + decimal((i + 1) as nat) + " · "@ + t.title
        }
    }

    /// What the tab bar shows: each title, and whether its tab is active.
    pub open spec fn meta(self) -> Seq<(Seq<char>, bool)> {
        Seq::new(self.tabs.len(), |i: int| (self.tabs[i].title, i == self.active))
    }

    /// The main window's title for the task bar.
    pub open spec fn os_title(self) -> Seq<char> {
        (if 0 <= self.active < self.tabs.len() {
            self.tabs[self.active].title
        } else {
            "JeTTY"@
        }) + " — JeTTY"@
    }
}

fn name_tab(tabs: &mut Vec<Tab>, i: usize, title: String)
    requires
        i < old(tabs)@.len(),
    ensures
        tab_views(final(tabs)@) == tab_views(old(tabs)@).update(
            i as int,
            TabView {
                title: title@,
                manually_renamed: true,
                ..tab_views(old(tabs)@)[i as int]
            },
        ),
{
    let ghost v = tab_views(tabs@);
    let ghost name = title@;
    tabs[i].title = title;
    tabs[i].manually_renamed = true;
    proof {
        assert(tab_views(tabs@) =~= v.update(
            i as int,
            TabView { title: name, manually_renamed: true, ..v[i as int] },
        ));
    }
}

impl App {
    /// Ends the rename that is under way and writes its text into the tab.
    pub fn commit_rename(&mut self)
        requires
            old(self)@.wf(),
        ensures
            final(self)@ == old(self)@.renamed(),
            final(self)@.wf(),
    {
        proof {
            lemma_renamed_wf(self@);
        }
        if let Some(i) = self.st.ui.renaming {
            let text: String = trimmed(self.rename_buf.as_str());
            self.end_rename(i, text);
        }
    }

    fn end_rename(&mut self, i: usize, text: String)
        requires
            old(self)@.st.ui.renaming == Some(i),
            text@ == trim(old(self)@.rename_buf),
        ensures
            final(self)@ == old(self)@.renamed(),
    {
        if i < self.tabs.len() && !text.as_str().is_empty() {
            name_tab(&mut self.tabs, i, text);
        }
        self.rename_buf.clear();
        self.st = (Stage { ui: Overlays { renaming: None, ..self.st.ui }, ..self.st }).paint_main();
    }

    /// The label that names tab `i` to the user.
    pub fn main_tab_label(&self, i: usize) -> (r: String)
        requires
            i < self.tabs@.len(),
        ensures
            r@ == self@.label(i as int),
    {
        let tab: &Tab = &self.tabs[i];
        assert(self@.tabs[i as int] == tab@);
        if tab.title == tab.default_title {
            tab.title.clone()
        } else {
            let n: usize = self.tabs.len();
            let mut s: String = "Tab ".to_owned();
            push_decimal(&mut s, (i + 1) as u64);
            s.append(" · ");
            s.append(tab.title.as_str());
            s
        }
    }

    /// The main window's title for the task bar.
    pub fn os_title(&self) -> (r: String)
        ensures
            r@ == self@.os_title(),
    {
        let mut s: String = if self.active < self.tabs.len() {
            assert(self@.tabs[self.active as int] == self.tabs@[self.active as int]@);
            self.tabs[self.active].title.clone()
        } else {
            "JeTTY".to_owned()
        };
        s.append(" — JeTTY");
        s
    }
}

/// What the tab bar last showed and the title last given to the main window.
#[derive(Debug)]
pub struct BarCache {
    pub meta: Vec<(String, bool)>,
    /// Whether `meta` was filled at all.
    pub filled: bool,
    pub os_title: String,
}

/// The characters of cached bar entries.
pub open spec fn meta_view(m: Seq<(String, bool)>) -> Seq<(Seq<char>, bool)> {
    m.map_values(|e: (String, bool)| (e.0@, e.1))
}

impl App {
    fn shows(&self, m: &Vec<(String, bool)>) -> (r: bool)
        ensures
            r == (meta_view(m@) == self@.meta()),
    {
        if m.len() != self.tabs.len() {
            assert(meta_view(m@).len() != self@.meta().len());
            return false;
        }
        let mut i: usize = 0;
        while i < m.len()
            invariant
                0 <= i <= m@.len(),
                m@.len() == self.tabs@.len(),
                forall|j: int|
                    0 <= j < i ==> #[trigger] meta_view(m@)[j] == self@.meta()[j],
            decreases m@.len() - i,
        {
            assert(meta_view(m@)[i as int] == (m@[i as int].0@, m@[i as int].1));
            assert(self@.meta()[i as int] == (self.tabs@[i as int].title@, i == self.active));
            if !(m[i].0 == self.tabs[i].title && m[i].1 == (i == self.active)) {
                return false;
            }
            i = i + 1;
        }
        proof {
            assert(meta_view(m@) =~= self@.meta());
        }
        true
    }

    fn build_meta(&self) -> (r: Vec<(String, bool)>)
        ensures
            meta_view(r@) == self@.meta(),
    {
        let mut out: Vec<(String, bool)> = Vec::new();
        let mut i: usize = 0;
        while i < self.tabs.len()
            invariant
                0 <= i <= self.tabs@.len(),
                out@.len() == i,
                forall|j: int|
                    0 <= j < i ==> #[trigger] meta_view(out@)[j] == self@.meta()[j],
            decreases self.tabs@.len() - i,
        {
            let ghost before = out@;
            out.push((self.tabs[i].title.clone(), i == self.active));
            proof {
                assert forall|j: int| 0 <= j < i + 1 implies #[trigger] meta_view(out@)[j]
                    == self@.meta()[j] by {
                    if j < i {
                        assert(meta_view(before)[j] == self@.meta()[j]);
                        assert(out@[j] == before[j]);
                    } else {
                        assert(self@.tabs[j] == self.tabs@[j]@);
                    }
                }
            }
            i = i + 1;
        }
        proof {
            assert(meta_view(out@) =~= self@.meta());
        }
        out
    }

    /// Brings the cached entries of the tab bar up to date. Returns the title
    /// to give to the main window where it changed with them; `window` tells
    /// that there is one.
    pub fn tabs_meta(&self, cache: &mut BarCache, window: bool) -> (r: Option<String>)
        ensures
            meta_view(final(cache).meta@) == self@.meta(),
            final(cache).filled,
            ({
                let stale = !old(cache).filled || meta_view(old(cache).meta@) != self@.meta();
                let retitle = stale && window && self@.os_title() != old(cache).os_title@;
                &&& r is Some <==> retitle
                &&& r matches Some(t) ==> t@ == self@.os_title()
                &&& final(cache).os_title@ == if retitle {
                    self@.os_title()
                } else {
                    old(cache).os_title@
                }
            }),
    {
        if cache.filled && self.shows(&cache.meta) {
            return None;
        }
        cache.meta = self.build_meta();
        cache.filled = true;
        let desired: String = self.os_title();
        if window && desired != cache.os_title {
            cache.os_title = desired.clone();
            Some(desired)
        } else {
            None
        }
    }
}

proof fn lemma_renamed_wf(v: AppView)
    requires
        v.wf(),
    ensures
        v.renamed().wf(),
{
}

/// An indicator comes on for output, gives way to the bell, and stays as it is
/// without either.
pub proof fn law_activity_comes_on(current: TabActivity, had: bool, suppress: bool)
    ensures
        activity_after(TabActivity::Idle, true, false, false) == TabActivity::Output,
        activity_after(current, had, true, suppress) == TabActivity::Bell,
        activity_after(current, false, false, suppress) == current,
        activity_after(current, had, false, true) == current,
        activity_after(TabActivity::Output, had, false, suppress) == TabActivity::Output,
{
}

/// A tab that the user has not named takes the shell's title, and its first one
/// again when the shell drops its own.
pub proof fn law_shell_names_the_tab(tab: TabView, title: Seq<char>)
    requires
        !tab.manually_renamed,
    ensures
        title_after(tab, Some(Some(title))) == title,
        title_after(tab, Some(None)) == tab.default_title,
        title_after(tab, None) == tab.title,
{
}

/// A title reaches the tab as the shell sent it.
pub proof fn law_title_is_seen_as_it_is(u: Option<Option<String>>)
    ensures
        u is None <==> title_view(u) is None,
        u matches Some(Some(t)) ==> title_view(u) == Some(Some(t@)),
        u == Some(None::<String>) ==> title_view(u) == Some(None::<Seq<char>>),
{
}

/// A rename gives its tab, and no other, the name without the white space
/// around it, for good; a blank name is none.
pub proof fn law_rename_names_one_tab(v: AppView, i: usize, j: int)
    requires
        v.st.ui.renaming == Some(i),
        i < v.tabs.len(),
        0 <= j < v.tabs.len(),
    ensures
        ({
            let r = v.renamed();
            let name = trim(v.rename_buf);
            &&& r.st.ui.renaming is None && r.rename_buf.len() == 0 && r.st.due.paint_main
            &&& r.tabs.len() == v.tabs.len() && r.active == v.active
            &&& j != i ==> r.tabs[j] == v.tabs[j]
            &&& name.len() > 0 ==> r.tabs[i as int].title == name
                && r.tabs[i as int].manually_renamed
            &&& name.len() == 0 ==> r.tabs == v.tabs
            &&& r.tabs[i as int].id == v.tabs[i as int].id
        }),
{
}

/// Without a rename there is none to end.
pub proof fn law_no_rename_no_change(v: AppView)
    requires
        v.st.ui.renaming is None,
    ensures
        v.renamed() == v,
{
}

/// The strip shows the tabs' titles in their order, the active one marked.
pub proof fn law_strip_shows_titles(v: AppView, i: int)
    requires
        0 <= i < v.tabs.len(),
    ensures
        v.meta().len() == v.tabs.len(),
        v.meta()[i].0 == v.tabs[i].title,
        v.meta()[i].1 <==> i == v.active,
{
}

/// The window's title begins with that of the active tab and ends with the
/// application's name.
pub proof fn law_window_title(v: AppView)
    requires
        0 <= v.active < v.tabs.len(),
    ensures
        v.os_title() == v.tabs[v.active].title + " — JeTTY"@,
{
}

/// A notice names a tab by its title, with its number before a title that is
/// not its first.
pub proof fn law_labels_name_tabs(v: AppView, i: int)
    requires
        0 <= i < v.tabs.len(),
    ensures
        v.tabs[i].title == v.tabs[i].default_title ==> v.label(i) == v.tabs[i].title,
        v.tabs[i].title != v.tabs[i].default_title ==> v.label(i).len() > v.tabs[i].title.len() + 4,
        v.tabs[i].title != v.tabs[i].default_title ==> v.label(i).subrange(
            v.label(i).len() - v.tabs[i].title.len(),
            v.label(i).len() as int,
        ) == v.tabs[i].title,
        v.tabs[i].title != v.tabs[i].default_title ==> "Tab "@.is_prefix_of(v.label(i)),
        v.tabs[i].title != v.tabs[i].default_title && i < 9 ==> v.label(i)[4] as int == '1' as int
            + i,
{
    reveal_strlit("Tab ");
    reveal_strlit(" · ");
    let t = v.tabs[i].title;
    let number = decimal((i + 1) as nat);
    let l = "Tab "@ + number + " · "@ + t;
    assert(l.subrange(l.len() - t.len(), l.len() as int) =~= t);
    assert("Tab "@ =~= l.subrange(0, 4));
    if i < 9 {
        assert(number =~= seq![crate::text::digit(i + 1)]);
        assert(l[4] == number[0]);
    }
    assert(number.len() > 0);
}

} // verus!
