//! The actions that keys and the command palette carry out.

use vstd::prelude::*;

use crate::input::{Ask, AskView, KeyAction};
use crate::presence::LAST_INSTANT;
use crate::state::{
    detached_views, map_uis, App, AppView, Detached, DetachedUi, DetachedView, Due, Overlays, Stage,
    Timers,
};
use crate::tabs::{lemma_wf_frame, lemma_wf_stage};

verus! {

/// A change of the font or of a window's size fits the grids this long after
/// the last one, in nanoseconds.
pub const REFLOW_DELAY: u64 = 250_000_000;

impl Stage {
    /// The popup asks whether to close tab `i`.
    pub open spec fn spec_ask_close(self, i: usize) -> Stage {
        (Stage { ui: Overlays { confirm_close: Some(i), ..self.ui }, ..self }).paint_main()
    }

    /// The popup asks whether to close tab `i`.
    #[verifier::when_used_as_spec(spec_ask_close)]
    pub fn ask_close(self, i: usize) -> (r: Stage)
        ensures
            r == self.spec_ask_close(i),
    {
        (Stage { ui: Overlays { confirm_close: Some(i), ..self.ui }, ..self }).paint_main()
    }

    /// The popup asks whether to quit.
    pub open spec fn spec_ask_quit(self) -> Stage {
        (Stage { ui: Overlays { confirm_quit: true, ..self.ui }, ..self }).paint_main()
    }

    /// The popup asks whether to quit.
    #[verifier::when_used_as_spec(spec_ask_quit)]
    pub fn ask_quit(self) -> (r: Stage)
        ensures
            r == self.spec_ask_quit(),
    {
        (Stage { ui: Overlays { confirm_quit: true, ..self.ui }, ..self }).paint_main()
    }

    /// The search bar opens over tab `active`.
    pub open spec fn spec_open_search(self, active: Option<u64>) -> Stage {
        (Stage {
            ui: Overlays { search_open: true, ..self.ui },
            due: Due { search_refresh: active, ..self.due },
            ..self
        }).paint_main()
    }

    /// The search bar opens over tab `active`.
    #[verifier::when_used_as_spec(spec_open_search)]
    pub fn open_search(self, active: Option<u64>) -> (r: Stage)
        ensures
            r == self.spec_open_search(active),
    {
        (Stage {
            ui: Overlays { search_open: true, ..self.ui },
            due: Due { search_refresh: active, ..self.due },
            ..self
        }).paint_main()
    }

    /// The search bar opens, or closes where it was open.
    pub open spec fn search_toggled(self, active: Option<u64>) -> Stage {
        if self.ui.search_open {
            self.search_closed(active)
        } else {
            self.open_search(active)
        }
    }

    fn toggle_search(self, active: Option<u64>) -> (r: Stage)
        ensures
            r == self.search_toggled(active),
    {
        if self.ui.search_open {
            self.close_search(active)
        } else {
            self.open_search(active)
        }
    }

    /// An open settings window closes.
    pub open spec fn panel_closed(self) -> Stage {
        if self.presence.settings_window is Some {
            self.settings_closed().paint_main()
        } else {
            self
        }
    }

    pub(crate) fn close_panel(self) -> (r: Stage)
        ensures
            r == self.panel_closed(),
    {
        if self.presence.settings_window.is_some() {
            self.close_settings_window().paint_main()
        } else {
            self
        }
    }

    /// The background's opacity changes.
    pub open spec fn spec_opacity_stepped(self) -> Stage {
        self.apply_theme().persist().paint_main()
    }

    /// The background's opacity changes.
    #[verifier::when_used_as_spec(spec_opacity_stepped)]
    pub fn opacity_stepped(self) -> (r: Stage)
        ensures
            r == self.spec_opacity_stepped(),
    {
        self.apply_theme().persist().paint_main()
    }

    /// What an action does to the scalar state, of the actions that change
    /// nothing else. `active` is the active tab's index and `id` its name.
    pub open spec fn acted(self, a: KeyAction, active: usize, id: Option<u64>) -> Stage {
        match a {
            KeyAction::TogglePanel | KeyAction::ClosePanel => self.panel_closed(),
            KeyAction::CloseTab => self.ask_close(active),
            KeyAction::SearchToggle => self.search_toggled(id),
            KeyAction::OpacityUp | KeyAction::OpacityDown => self.opacity_stepped(),
            KeyAction::ScrollPageUp | KeyAction::ScrollPageDown => self.relink_and_paint(),
            KeyAction::SelectAll => self.paint_main(),
            KeyAction::Quit => self.ask_quit(),
            _ => self,
        }
    }

    fn act(self, a: KeyAction, active: usize, id: Option<u64>) -> (r: Stage)
        ensures
            r == self.acted(a, active, id),
    {
        match a {
            KeyAction::TogglePanel | KeyAction::ClosePanel => self.close_panel(),
            KeyAction::CloseTab => self.ask_close(active),
            KeyAction::SearchToggle => self.toggle_search(id),
            KeyAction::OpacityUp | KeyAction::OpacityDown => self.opacity_stepped(),
            KeyAction::ScrollPageUp | KeyAction::ScrollPageDown => self.relink_and_paint(),
            KeyAction::SelectAll => self.paint_main(),
            KeyAction::Quit => self.ask_quit(),
            _ => self,
        }
    }

    /// What an action asks of the outside.
    pub open spec fn action_ask(self, a: KeyAction, active: usize) -> AskView {
        match a {
            KeyAction::TogglePanel => if self.presence.settings_window is None {
                AskView::OpenSettings
            } else {
                AskView::Nothing
            },
            KeyAction::OpenPalette => AskView::FillPalette,
            KeyAction::NewTab => AskView::SpawnTab,
            KeyAction::DetachTab => AskView::Detach(active as int),
            KeyAction::OpacityUp => AskView::OpacityUp,
            KeyAction::OpacityDown => AskView::OpacityDown,
            KeyAction::ScrollPageUp => AskView::ScrollPage(true),
            KeyAction::ScrollPageDown => AskView::ScrollPage(false),
            KeyAction::FontUp => AskView::FontUp,
            KeyAction::FontDown => AskView::FontDown,
            KeyAction::FontReset => AskView::FontReset,
            KeyAction::Copy => AskView::CopySelection,
            KeyAction::Paste => AskView::PasteClipboard,
            KeyAction::PrevPrompt => AskView::JumpPrompt(false),
            KeyAction::NextPrompt => AskView::JumpPrompt(true),
            KeyAction::SelectAll => AskView::SelectAll,
            KeyAction::HintMode => AskView::EnterHint,
            KeyAction::CopyMode => AskView::EnterCopy,
            _ => AskView::Nothing,
        }
    }

    fn ask_for(self, a: KeyAction, active: usize) -> (r: Ask)
        ensures
            r@ == self.action_ask(a, active),
    {
        match a {
            KeyAction::TogglePanel => if self.presence.settings_window.is_none() {
                Ask::OpenSettings
            } else {
                Ask::Nothing
            },
            KeyAction::OpenPalette => Ask::FillPalette,
            KeyAction::NewTab => Ask::SpawnTab,
            KeyAction::DetachTab => Ask::Detach(active),
            KeyAction::OpacityUp => Ask::OpacityUp,
            KeyAction::OpacityDown => Ask::OpacityDown,
            KeyAction::ScrollPageUp => Ask::ScrollPage(true),
            KeyAction::ScrollPageDown => Ask::ScrollPage(false),
            KeyAction::FontUp => Ask::FontUp,
            KeyAction::FontDown => Ask::FontDown,
            KeyAction::FontReset => Ask::FontReset,
            KeyAction::Copy => Ask::CopySelection,
            KeyAction::Paste => Ask::PasteClipboard,
            KeyAction::PrevPrompt => Ask::JumpPrompt(false),
            KeyAction::NextPrompt => Ask::JumpPrompt(true),
            KeyAction::SelectAll => Ask::SelectAll,
            KeyAction::HintMode => Ask::EnterHint,
            KeyAction::CopyMode => Ask::EnterCopy,
            _ => Ask::Nothing,
        }
    }
}

impl DetachedUi {
    /// A detached window whose font changed: its grid is fitted a little
    /// later, and it repaints now.
    pub open spec fn refonted(self, at: u64) -> DetachedUi {
        DetachedUi { reflow_pending_at: Some(at), paint: true, relink: true, ..self }
    }
}

/// Tells every detached window that the font changed.
fn refont_windows(list: &mut Vec<Detached>, at: u64)
    ensures
        detached_views(final(list)@) == Seq::new(
            old(list)@.len(),
            |i: int|
                DetachedView {
                    ui: detached_views(old(list)@)[i].ui.refonted(at),
                    ..detached_views(old(list)@)[i]
                },
        ),
{
    let ghost v = detached_views(list@);
    let f = |_i: usize, ui: DetachedUi| -> (r: DetachedUi)
        ensures
            r == ui.refonted(at),
    {
        DetachedUi { reflow_pending_at: Some(at), paint: true, relink: true, ..ui }
    };
    map_uis(list, f);
    assert(detached_views(list@) =~= Seq::new(
        v.len(),
        |i: int| DetachedView { ui: v[i].ui.refonted(at), ..v[i] },
    ));
}

impl AppView {
    /// The size of the font changed: the windows show it at once, and every
    /// grid is fitted once, when the changes have settled.
    pub open spec fn font_sized(self, now: u64) -> AppView {
        let at = (now + REFLOW_DELAY) as u64;
        AppView {
            st: (Stage {
                timers: Timers { reflow_pending_at: Some(at), ..self.st.timers },
                ..self.st
            }).persist().relink_and_paint(),
            detached: Seq::new(
                self.detached.len(),
                |i: int| DetachedView { ui: self.detached[i].ui.refonted(at), ..self.detached[i] },
            ),
            ..self
        }
    }

    /// An action is carried out.
    pub open spec fn acted(self, a: KeyAction, now: u64) -> AppView {
        match a {
            KeyAction::OpenPalette => self.open_palette(),
            KeyAction::NextTab => self.switch_tab(true),
            KeyAction::PrevTab => self.switch_tab(false),
            KeyAction::SelectTab(n) => self.select_tab(n as int),
            KeyAction::FontUp | KeyAction::FontDown | KeyAction::FontReset => self.font_sized(now),
            _ => AppView {
                st: self.st.acted(a, self.active as usize, self.active_id()),
                ..self
            },
        }
    }
}

impl App {
    /// The size of the font changed.
    pub fn font_sized(&mut self, now: u64)
        requires
            old(self)@.wf(),
            now <= LAST_INSTANT,
        ensures
            final(self)@ == old(self)@.font_sized(now),
            final(self)@.wf(),
    {
        proof {
            lemma_font_wf(self@, now);
        }
        let at: u64 = now + REFLOW_DELAY;
        self.st = (Stage {
            timers: Timers { reflow_pending_at: Some(at), ..self.st.timers },
            ..self.st
        }).persist().relink_and_paint();
        refont_windows(&mut self.detached, at);
    }

    /// Carries out an action in the main window.
    pub fn act(&mut self, a: KeyAction, now: u64) -> (r: Ask)
        requires
            old(self)@.wf(),
            old(self)@.tabs.len() > 0,
            now <= LAST_INSTANT,
        ensures
            final(self)@ == old(self)@.acted(a, now),
            r@ == old(self)@.st.action_ask(a, old(self).active),
            final(self)@.wf(),
    {
        let ask: Ask = self.st.ask_for(a, self.active);
        match a {
            KeyAction::OpenPalette => {
                let _fill: Ask = self.open_palette();
            },
            KeyAction::NextTab => {
                self.switch_tab(true);
            },
            KeyAction::PrevTab => {
                self.switch_tab(false);
            },
            KeyAction::SelectTab(n) => {
                self.select_tab(n);
            },
            KeyAction::FontUp | KeyAction::FontDown | KeyAction::FontReset => {
                self.font_sized(now);
            },
            _ => {
                self.act_scalar(a);
            },
        }
        ask
    }

    fn act_scalar(&mut self, a: KeyAction)
        requires
            old(self)@.wf(),
            old(self)@.tabs.len() > 0,
        ensures
            final(self)@ == (AppView {
                st: old(self)@.st.acted(a, old(self).active, old(self)@.active_id()),
                ..old(self)@
            }),
            final(self)@.wf(),
    {
        let id: Option<u64> = self.active_tab_id();
        proof {
            lemma_acted_wf(self@, a, self.active, id);
        }
        self.st = self.st.act(a, self.active, id);
    }
}

proof fn lemma_font_wf(v: AppView, now: u64)
    requires
        v.wf(),
    ensures
        v.font_sized(now).wf(),
{
    reveal(Stage::same_indices);
    let w = v.font_sized(now);
    assert(w.st.ui == v.st.ui);
    assert(w.st.pointer == v.st.pointer);
    assert(w.st.due.exit == v.st.due.exit);
    lemma_wf_frame(v, w);
}

/// A step that leaves the overlays that name tabs alone.
pub(crate) proof fn lemma_same(s: Stage, t: Stage)
    requires
        t.ui.renaming == s.ui.renaming,
        t.ui.confirm_close == s.ui.confirm_close,
        t.ui.tab_menu == s.ui.tab_menu,
        t.pointer.tab_drag == s.pointer.tab_drag,
        t.due.exit == s.due.exit,
    ensures
        s.same_indices(t),
{
    reveal(Stage::same_indices);
}

proof fn lemma_acted_same(s: Stage, a: KeyAction, active: usize, id: Option<u64>)
    requires
        a != KeyAction::CloseTab,
    ensures
        s.same_indices(s.acted(a, active, id)),
{
    let t = s.acted(a, active, id);
    match a {
        KeyAction::TogglePanel | KeyAction::ClosePanel => {
            assert(t == s.panel_closed());
            lemma_same(s, t);
        },
        KeyAction::SearchToggle => {
            assert(t == s.search_toggled(id));
            lemma_same(s, t);
        },
        KeyAction::OpacityUp | KeyAction::OpacityDown => {
            assert(t == s.opacity_stepped());
            lemma_same(s, t);
        },
        _ => {
            lemma_same(s, t);
        },
    }
}

proof fn lemma_ask_close_wf(v: AppView, i: usize)
    requires
        v.wf(),
        i < v.tabs.len(),
    ensures
        (AppView { st: v.st.ask_close(i), ..v }).wf(),
{
}

proof fn lemma_acted_wf(v: AppView, a: KeyAction, active: usize, id: Option<u64>)
    requires
        v.wf(),
        v.tabs.len() > 0,
        active == v.active,
    ensures
        (AppView { st: v.st.acted(a, active, id), ..v }).wf(),
{
    if a == KeyAction::CloseTab {
        lemma_ask_close_wf(v, active);
    } else {
        lemma_acted_same(v.st, a, active, id);
        lemma_wf_stage(v, v.st.acted(a, active, id));
    }
}

proof fn lemma_going_closes_nothing(v: AppView, n: int)
    ensures
        v.select_tab(n).tabs == v.tabs,
        v.select_tab(n).detached == v.detached,
        v.select_tab(n).st.due.exit == v.st.due.exit,
{
}

proof fn lemma_switching_closes_nothing(v: AppView, forward: bool)
    ensures
        v.switch_tab(forward).tabs == v.tabs,
        v.switch_tab(forward).detached == v.detached,
        v.switch_tab(forward).st.due.exit == v.st.due.exit,
{
}

proof fn lemma_palette_closes_nothing(v: AppView)
    ensures
        v.open_palette().tabs == v.tabs,
        v.open_palette().detached == v.detached,
        v.open_palette().st.due.exit == v.st.due.exit,
{
}

proof fn lemma_font_closes_nothing(v: AppView, now: u64)
    ensures
        v.font_sized(now).tabs == v.tabs,
        v.font_sized(now).detached.len() == v.detached.len(),
        v.font_sized(now).st.due.exit == v.st.due.exit,
{
}

/// No key ends a session unasked: an action leaves every tab and every
/// detached window in place and ends nothing. Closing and quitting ask first.
pub proof fn law_no_action_closes(v: AppView, a: KeyAction, now: u64)
    ensures
        v.acted(a, now).tabs == v.tabs,
        v.acted(a, now).detached.len() == v.detached.len(),
        v.acted(a, now).st.due.exit == v.st.due.exit,
        a == KeyAction::CloseTab ==> v.acted(a, now).st.ui.confirm_close == Some(v.active as usize),
        a == KeyAction::Quit ==> v.acted(a, now).st.ui.confirm_quit,
{
    let w = v.acted(a, now);
    match a {
        KeyAction::OpenPalette => {
            assert(w == v.open_palette());
            lemma_palette_closes_nothing(v);
        },
        KeyAction::NextTab => {
            assert(w == v.switch_tab(true));
            lemma_switching_closes_nothing(v, true);
        },
        KeyAction::PrevTab => {
            assert(w == v.switch_tab(false));
            lemma_switching_closes_nothing(v, false);
        },
        KeyAction::SelectTab(n) => {
            assert(w == v.select_tab(n as int));
            lemma_going_closes_nothing(v, n as int);
        },
        KeyAction::FontUp | KeyAction::FontDown | KeyAction::FontReset => {
            assert(w == v.font_sized(now));
            lemma_font_closes_nothing(v, now);
        },
        KeyAction::CloseTab => {
            assert(w.st == v.st.ask_close(v.active as usize));
        },
        KeyAction::Quit => {
            assert(w.st == v.st.ask_quit());
        },
        _ => {
            assert(w.st == v.st.acted(a, v.active as usize, v.active_id()));
            lemma_acted_same(v.st, a, v.active as usize, v.active_id());
            reveal(Stage::same_indices);
        },
    }
}

/// Each action that a key is bound to asks for its own effect, whatever the
/// state, and no two ask for the same one.
pub proof fn law_actions_ask_for_their_effect(s: Stage, active: usize, a: KeyAction, b: KeyAction)
    ensures
        s.action_ask(KeyAction::FontUp, active) == AskView::FontUp,
        s.action_ask(KeyAction::FontDown, active) == AskView::FontDown,
        s.action_ask(KeyAction::FontReset, active) == AskView::FontReset,
        s.action_ask(KeyAction::OpacityUp, active) == AskView::OpacityUp,
        s.action_ask(KeyAction::OpacityDown, active) == AskView::OpacityDown,
        s.action_ask(KeyAction::ScrollPageUp, active) == AskView::ScrollPage(true),
        s.action_ask(KeyAction::ScrollPageDown, active) == AskView::ScrollPage(false),
        s.action_ask(KeyAction::Copy, active) == AskView::CopySelection,
        s.action_ask(KeyAction::Paste, active) == AskView::PasteClipboard,
        s.action_ask(KeyAction::SelectAll, active) == AskView::SelectAll,
        s.action_ask(KeyAction::PrevPrompt, active) == AskView::JumpPrompt(false),
        s.action_ask(KeyAction::NextPrompt, active) == AskView::JumpPrompt(true),
        s.action_ask(KeyAction::NewTab, active) == AskView::SpawnTab,
        s.action_ask(KeyAction::DetachTab, active) == AskView::Detach(active as int),
        s.action_ask(KeyAction::OpenPalette, active) == AskView::FillPalette,
        s.action_ask(KeyAction::HintMode, active) == AskView::EnterHint,
        s.action_ask(KeyAction::CopyMode, active) == AskView::EnterCopy,
        s.action_ask(a, active) != AskView::Nothing && s.action_ask(a, active) == s.action_ask(
            b,
            active,
        ) ==> a == b,
        a == KeyAction::CloseTab || a == KeyAction::NextTab || a == KeyAction::PrevTab || a
            is SelectTab || a == KeyAction::SearchToggle || a == KeyAction::Quit || a
            == KeyAction::ClosePanel ==> s.action_ask(a, active) == AskView::Nothing,
{
}

/// The settings key opens the window where there is none and closes it where
/// there is one; closing alone never opens it.
pub proof fn law_settings_key_toggles(v: AppView, active: usize, now: u64)
    ensures
        ({
            let there = v.st.presence.settings_window is Some;
            let after = v.acted(KeyAction::TogglePanel, now);
            &&& (v.st.action_ask(KeyAction::TogglePanel, active) == AskView::OpenSettings) == !there
            &&& there ==> v.st.action_ask(KeyAction::TogglePanel, active) == AskView::Nothing
            &&& after.st.presence.settings_window is None
            &&& !there ==> after == v
            &&& there ==> after.st.due.paint_main
            &&& v.acted(KeyAction::ClosePanel, now) == after
        }),
{
}

/// What an action leaves to the outside changes nothing by itself.
pub proof fn law_outside_actions_change_nothing(v: AppView, a: KeyAction, now: u64)
    requires
        a == KeyAction::NewTab || a == KeyAction::DetachTab || a == KeyAction::Copy || a
            == KeyAction::Paste || a == KeyAction::PrevPrompt || a == KeyAction::NextPrompt || a
            == KeyAction::HintMode || a == KeyAction::CopyMode,
    ensures
        v.acted(a, now) == v,
{
}

/// The search key opens the bar and closes it again: what is found is looked
/// up in the active tab when it opens and dropped there when it closes.
pub proof fn law_search_key_toggles(v: AppView, now: u64)
    ensures
        ({
            let after = v.acted(KeyAction::SearchToggle, now);
            &&& after.st.ui.search_open == !v.st.ui.search_open
            &&& after.st.due.paint_main
            &&& !v.st.ui.search_open && 0 <= v.active < v.tabs.len() ==> after.st.due.search_refresh
                == Some(v.tabs[v.active].id)
            &&& v.st.ui.search_open && 0 <= v.active < v.tabs.len() ==> after.st.due.search_clear
                == Some(v.tabs[v.active].id)
            &&& after.tabs == v.tabs && after.active == v.active
        }),
{
}

/// A new opacity goes into every terminal, is written down and shown; a page
/// that scrolled is shown and searched for links; all text selected is shown.
pub proof fn law_actions_show(v: AppView, a: KeyAction, now: u64)
    ensures
        a == KeyAction::OpacityUp || a == KeyAction::OpacityDown ==> {
            let due = v.acted(a, now).st.due;
            &&& due.restyle && due.paint_main && due.paint_detached
            &&& due.persist == (v.st.due.persist || !v.st.panel.reloading)
        },
        a == KeyAction::ScrollPageUp || a == KeyAction::ScrollPageDown ==> v.acted(
            a,
            now,
        ).st.due.paint_main && v.acted(a, now).st.due.relink,
        a == KeyAction::SelectAll ==> v.acted(a, now).st.due.paint_main,
        a == KeyAction::Quit || a == KeyAction::CloseTab ==> v.acted(a, now).st.due.paint_main,
{
}

/// A font of another size is written down and shown at once, and every grid,
/// of the main window and of the others, is fitted a quarter of a second
/// later.
pub proof fn law_font_size_refits(v: AppView, a: KeyAction, now: u64, i: int)
    requires
        a == KeyAction::FontUp || a == KeyAction::FontDown || a == KeyAction::FontReset,
        now <= LAST_INSTANT,
    ensures
        ({
            let after = v.acted(a, now);
            &&& after.st.timers.reflow_pending_at == Some((now + 250_000_000) as u64)
            &&& after.st.due.paint_main && after.st.due.relink
            &&& after.st.due.persist == (v.st.due.persist || !v.st.panel.reloading)
            &&& after.detached.len() == v.detached.len()
            &&& 0 <= i < v.detached.len() ==> {
                let d = after.detached[i];
                &&& d.window == v.detached[i].window && d.tab == v.detached[i].tab
                &&& d.ui.reflow_pending_at == Some((now + 250_000_000) as u64)
                &&& d.ui.paint && d.ui.relink
            }
        }),
{
}

/// The tab keys move to the neighbour, the numbered ones to their tab, the
/// last one where there are fewer.
pub proof fn law_tab_keys_move(v: AppView, n: usize, now: u64)
    requires
        0 <= v.active < v.tabs.len(),
    ensures
        ({
            let len = v.tabs.len() as int;
            &&& v.acted(KeyAction::NextTab, now).active == if v.active + 1 < len {
                v.active + 1
            } else {
                0
            }
            &&& v.acted(KeyAction::PrevTab, now).active == if v.active > 0 {
                v.active - 1
            } else {
                len - 1
            }
            &&& v.acted(KeyAction::SelectTab(n), now).active == if n < len {
                n as int
            } else {
                len - 1
            }
        }),
{
    crate::strip::lemma_wrap(v.active, v.tabs.len() as int);
}

} // verus!
