//! The left button in the main window: which overlay takes a press, and what
//! it does on the tab strip and over the grid.

use vstd::prelude::*;

use crate::input::{Ask, AskView, MouseReport};
use crate::modal::{open_ask, open_url};
use crate::presence::{Env, LAST_INSTANT};
use crate::state::{hint_view, App, AppView, Due, Overlays, Pointer, Presence, Stage, TabDrag};
use crate::tabs::{lemma_narrow, lemma_wf_narrow};
use crate::zone::ResizeZone;

verus! {

/// Two presses on the strip within this time are a double click, in
/// nanoseconds.
pub const DOUBLE_CLICK: u64 = 400_000_000;

/// Who takes a press of the left button.
#[derive(Debug, Clone, Copy, PartialEq, Eq, Structural)]
pub enum PressOwner {
    Nobody,
    Palette,
    Quit,
    Close(usize),
    TabMenu(usize),
    Menu,
    Help,
    /// The search bar, the edges, the strip and the grid.
    Open,
}

/// Where a press hits the palette.
#[derive(Debug, Clone, Copy, PartialEq, Eq, Structural)]
pub enum PaletteHit {
    /// A row, counted from the first match.
    Row(usize),
    Panel,
    Outside,
}

/// Where a press hits a popup.
#[derive(Debug, Clone, Copy, PartialEq, Eq, Structural)]
pub enum PopupHit {
    Confirm,
    Cancel,
    Panel,
    Outside,
}

/// The entries of a tab's menu.
#[derive(Debug, Clone, Copy, PartialEq, Eq, Structural)]
pub enum TabMenuItem {
    Detach,
    Rename,
    Close,
}

/// The entry in row `i` of a tab's menu, which begins with "Detach" where the
/// tab could be detached when the menu opened.
pub open spec fn menu_entry(detach: bool, i: usize) -> Option<TabMenuItem> {
    match (detach, i) {
        (true, 0) => Some(TabMenuItem::Detach),
        (true, 1) | (false, 0) => Some(TabMenuItem::Rename),
        (true, 2) | (false, 1) => Some(TabMenuItem::Close),
        _ => None,
    }
}

/// The entry in row `i` of a tab's menu.
pub fn tab_menu_item(detach: bool, i: usize) -> (r: Option<TabMenuItem>)
    ensures
        r == menu_entry(detach, i),
{
    let row: usize = if detach {
        i
    } else if i < 2 {
        i + 1
    } else {
        3
    };
    if row == 0 {
        Some(TabMenuItem::Detach)
    } else if row == 1 {
        Some(TabMenuItem::Rename)
    } else if row == 2 {
        Some(TabMenuItem::Close)
    } else {
        None
    }
}

/// Where a press hits the search bar.
#[derive(Debug, Clone, Copy, PartialEq, Eq, Structural)]
pub enum SearchHit {
    Close,
    Panel,
    Outside,
}

/// Where a press hits the tab strip.
#[derive(Debug, Clone, Copy, PartialEq, Eq, Structural)]
pub enum StripHit {
    Help,
    Settings,
    Close,
    Maximize,
    Minimize,
    /// The cross on this tab.
    CloseTab(usize),
    Plus,
    Tab(usize),
    /// None of these.
    Space,
}

/// Where a press hits the scroll bar.
#[derive(Debug, Clone, Copy, PartialEq, Eq, Structural)]
pub enum BarHit {
    Thumb,
    Track,
    Outside,
}

impl Stage {
    /// The overlay that takes a press of the left button.
    pub open spec fn press_owner(self) -> PressOwner {
        if self.ui.palette_open {
            PressOwner::Palette
        } else if self.ui.confirm_quit {
            PressOwner::Quit
        } else if self.ui.confirm_close is Some {
            PressOwner::Close(self.ui.confirm_close->0)
        } else if self.ui.tab_menu is Some {
            PressOwner::TabMenu(self.ui.tab_menu->0)
        } else if self.ui.context_menu {
            PressOwner::Menu
        } else if self.ui.help_open {
            PressOwner::Help
        } else {
            PressOwner::Open
        }
    }

    fn press_target(self) -> (r: PressOwner)
        ensures
            r == self.press_owner(),
    {
        if self.ui.palette_open {
            return PressOwner::Palette;
        }
        if self.ui.confirm_quit {
            return PressOwner::Quit;
        }
        if let Some(i) = self.ui.confirm_close {
            return PressOwner::Close(i);
        }
        if let Some(i) = self.ui.tab_menu {
            return PressOwner::TabMenu(i);
        }
        if self.ui.context_menu {
            PressOwner::Menu
        } else if self.ui.help_open {
            PressOwner::Help
        } else {
            PressOwner::Open
        }
    }
}

impl AppView {
    /// A press counts for nothing: there is nothing to press on, the window is
    /// still sliding in, or hint mode has the keyboard.
    pub open spec fn press_ignored(self, surface: bool) -> bool {
        self.tabs.len() == 0 || !surface || self.st.timers.slide_anim is Some || self.hint is Some
    }

    /// A press ends copy mode and goes on.
    pub open spec fn press_begun(self) -> AppView {
        if self.st.ui.copy_mode is Some {
            self.copy_left()
        } else {
            self
        }
    }

    /// The palette was pressed on.
    pub open spec fn palette_pressed(self, hit: PaletteHit) -> AppView {
        if hit is Panel {
            self
        } else {
            self.close_palette()
        }
    }

    /// What a press on the palette asks for.
    pub open spec fn palette_press_ask(self, hit: PaletteHit) -> AskView {
        match hit {
            PaletteHit::Row(i) if i < self.palette.hits.len() => AskView::Run(
                self.palette.hits[i as int],
            ),
            _ => AskView::Nothing,
        }
    }
}

impl App {
    /// Begins to handle a press of the left button: tells who takes it, so
    /// that what it hits there can be found.
    pub fn left_pressed(&mut self, surface: bool) -> (r: PressOwner)
        requires
            old(self)@.wf(),
        ensures
            old(self)@.press_ignored(surface) ==> r is Nobody && final(self)@ == old(self)@,
            !old(self)@.press_ignored(surface) ==> final(self)@ == old(self)@.press_begun() && r
                == old(self)@.st.press_owner(),
            final(self)@.wf(),
    {
        proof {
            reveal(hint_view);
            reveal(AppView::copy_left);
        }
        if self.tabs.len() == 0 || !surface || self.st.timers.slide_anim.is_some()
            || self.hint.is_some() {
            return PressOwner::Nobody;
        }
        if self.st.ui.copy_mode.is_some() {
            let id: Option<u64> = self.active_tab_id();
            proof {
                let t = self@.st.clear_selection(id).exit_copy_mode();
                lemma_narrow(self@.st, t);
                lemma_wf_narrow(self@, t);
                lemma_owner_kept(self@.st, id);
            }
            self.st = self.st.clear_selection(id).exit_copy_mode();
        }
        self.st.press_target()
    }

    /// Handles a press while the palette is open.
    pub fn press_palette_at(&mut self, hit: PaletteHit) -> (r: Ask)
        requires
            old(self)@.wf(),
        ensures
            final(self)@ == old(self)@.palette_pressed(hit),
            r@ == old(self)@.palette_press_ask(hit),
            final(self)@.wf(),
    {
        match hit {
            PaletteHit::Row(i) => {
                let ask: Ask = if i < self.palette.hits.len() {
                    Ask::Run(self.palette.hits[i])
                } else {
                    Ask::Nothing
                };
                self.close_palette();
                ask
            },
            PaletteHit::Panel => Ask::Nothing,
            PaletteHit::Outside => {
                self.close_palette();
                Ask::Nothing
            },
        }
    }
}

proof fn lemma_owner_kept(s: Stage, id: Option<u64>)
    ensures
        s.clear_selection(id).exit_copy_mode().press_owner() == s.press_owner(),
{
}

impl Stage {
    /// The popup that asks whether to quit was pressed on.
    pub open spec fn quit_pressed(self, hit: PopupHit) -> Stage {
        match hit {
            PopupHit::Confirm => Stage { due: Due { exit: true, ..self.due }, ..self },
            PopupHit::Cancel | PopupHit::Outside => (Stage {
                ui: Overlays { confirm_quit: false, ..self.ui },
                ..self
            }).paint_main(),
            PopupHit::Panel => self.paint_main(),
        }
    }

    fn press_quit_popup(self, hit: PopupHit) -> (r: Stage)
        ensures
            r == self.quit_pressed(hit),
    {
        match hit {
            PopupHit::Confirm => Stage { due: Due { exit: true, ..self.due }, ..self },
            PopupHit::Cancel | PopupHit::Outside => (Stage {
                ui: Overlays { confirm_quit: false, ..self.ui },
                ..self
            }).paint_main(),
            PopupHit::Panel => self.paint_main(),
        }
    }

    /// No tab waits for its closing to be confirmed.
    pub open spec fn spec_close_unasked(self) -> Stage {
        Stage { ui: Overlays { confirm_close: None, ..self.ui }, ..self }
    }

    /// No tab waits for its closing to be confirmed.
    #[verifier::when_used_as_spec(spec_close_unasked)]
    pub fn close_unasked(self) -> (r: Stage)
        ensures
            r == self.spec_close_unasked(),
    {
        Stage { ui: Overlays { confirm_close: None, ..self.ui }, ..self }
    }

    /// The help text was pressed on, or beside, which closes it.
    pub open spec fn help_pressed(self, inside: bool) -> Stage {
        (Stage {
            ui: Overlays { help_open: self.ui.help_open && inside, ..self.ui },
            ..self
        }).paint_main()
    }

    /// The context menu closed; its last entry asks about closing tab
    /// `active`.
    pub open spec fn menu_pressed(self, row: Option<usize>, active: usize) -> Stage {
        (Stage {
            ui: Overlays {
                context_menu: false,
                menu_hover: None,
                confirm_close: if row == Some(4usize) {
                    Some(active)
                } else {
                    self.ui.confirm_close
                },
                ..self.ui
            },
            ..self
        }).paint_main()
    }

    fn press_menu_row(self, row: Option<usize>, active: usize) -> (r: Stage)
        ensures
            r == self.menu_pressed(row, active),
    {
        let confirm_close: Option<usize> = match row {
            Some(4) => Some(active),
            _ => self.ui.confirm_close,
        };
        (Stage {
            ui: Overlays { context_menu: false, menu_hover: None, confirm_close, ..self.ui },
            ..self
        }).paint_main()
    }
}

/// What an entry of the context menu asks for.
pub open spec fn menu_ask(row: Option<usize>) -> AskView {
    if row == Some(0usize) {
        AskView::CopySelection
    } else if row == Some(1usize) {
        AskView::PasteClipboard
    } else if row == Some(2usize) {
        AskView::SelectAll
    } else if row == Some(3usize) {
        AskView::Send(seq![0x0cu8])
    } else {
        AskView::Nothing
    }
}

fn ask_menu(row: Option<usize>) -> (r: Ask)
    ensures
        r@ == menu_ask(row),
{
    match row {
        Some(0) => Ask::CopySelection,
        Some(1) => Ask::PasteClipboard,
        Some(2) => Ask::SelectAll,
        Some(3) => {
            let b: Vec<u8> = vec![0x0c];
            assert(b@ =~= seq![0x0cu8]);
            Ask::Send(b)
        },
        _ => Ask::Nothing,
    }
}

impl AppView {
    /// The popup that asks whether to close tab `i` was pressed on.
    #[verifier::opaque]
    pub open spec fn close_pressed(self, i: usize, hit: PopupHit, env: Env) -> AppView {
        let v = AppView { st: self.st.close_unasked(), ..self };
        match hit {
            PopupHit::Confirm => {
                let w = v.close_tab(i as int, env);
                AppView { st: w.st.paint_main(), ..w }
            },
            PopupHit::Cancel | PopupHit::Outside => AppView { st: v.st.paint_main(), ..v },
            PopupHit::Panel => AppView { st: self.st.paint_main(), ..self },
        }
    }

    /// The title of tab `i` is edited.
    pub open spec fn rename_begun(self, i: usize) -> AppView {
        AppView {
            rename_buf: self.tabs[i as int].title,
            st: (Stage {
                ui: Overlays { renaming: Some(i), ..self.st.ui },
                ..self.st
            }).paint_main(),
            ..self
        }
    }

    /// The entry in row `row` of the open tab menu.
    pub open spec fn entry_at(self, row: Option<usize>) -> Option<TabMenuItem> {
        match row {
            Some(r) => menu_entry(self.st.ui.tab_menu_detach, r),
            None => None,
        }
    }

    /// The menu of tab `i` closed, with this entry chosen.
    #[verifier::opaque]
    pub open spec fn tab_menu_pressed(self, i: usize, item: Option<TabMenuItem>) -> AppView {
        let v = AppView { st: self.st.menu_closed().paint_main(), ..self };
        match item {
            Some(TabMenuItem::Rename) if i < self.tabs.len() => v.rename_begun(i),
            Some(TabMenuItem::Close) if i < self.tabs.len() => AppView {
                st: v.st.ask_close(i),
                ..v
            },
            _ => v,
        }
    }

    /// What the chosen entry of the menu of tab `i` asks for.
    pub open spec fn tab_menu_ask(self, i: usize, item: Option<TabMenuItem>) -> AskView {
        if item == Some(TabMenuItem::Detach) && i < self.tabs.len() {
            AskView::Detach(i as int)
        } else {
            AskView::Nothing
        }
    }
}

proof fn lemma_stage_paint_wf(v: AppView)
    requires
        v.wf(),
    ensures
        (AppView { st: v.st.paint_main(), ..v }).wf(),
{
    lemma_narrow(v.st, v.st.paint_main());
    lemma_wf_narrow(v, v.st.paint_main());
}

proof fn lemma_unasked_wf(v: AppView)
    requires
        v.wf(),
    ensures
        (AppView { st: v.st.close_unasked(), ..v }).wf(),
        (AppView { st: v.st.close_unasked().paint_main(), ..v }).wf(),
{
    lemma_narrow(v.st, v.st.close_unasked());
    lemma_wf_narrow(v, v.st.close_unasked());
    lemma_narrow(v.st, v.st.close_unasked().paint_main());
    lemma_wf_narrow(v, v.st.close_unasked().paint_main());
}

proof fn lemma_menu_closed_wf(v: AppView)
    requires
        v.wf(),
    ensures
        (AppView { st: v.st.menu_closed().paint_main(), ..v }).wf(),
{
    lemma_narrow(v.st, v.st.menu_closed().paint_main());
    lemma_wf_narrow(v, v.st.menu_closed().paint_main());
}

proof fn lemma_rename_begun_wf(v: AppView, i: usize)
    requires
        v.wf(),
        i < v.tabs.len(),
    ensures
        v.rename_begun(i).wf(),
{
}

proof fn lemma_ask_close_wf(v: AppView, i: usize)
    requires
        v.wf(),
        i < v.tabs.len(),
    ensures
        (AppView { st: v.st.ask_close(i), ..v }).wf(),
{
}

proof fn lemma_menu_wf(v: AppView, row: Option<usize>, active: usize)
    requires
        v.wf(),
        active == v.active,
        v.tabs.len() > 0,
    ensures
        (AppView { st: v.st.menu_pressed(row, active), ..v }).wf(),
{
}

impl App {
    /// Handles a press while the popup asks whether to quit.
    pub fn press_quit_at(&mut self, hit: PopupHit)
        requires
            old(self)@.wf(),
        ensures
            final(self)@ == (AppView { st: old(self)@.st.quit_pressed(hit), ..old(self)@ }),
            final(self)@.wf(),
    {
        proof {
            lemma_narrow(self@.st, self@.st.quit_pressed(hit));
            lemma_wf_narrow(self@, self@.st.quit_pressed(hit));
        }
        self.st = self.st.press_quit_popup(hit);
    }

    /// Handles a press while the popup asks whether to close tab `i`.
    pub fn press_close_at(&mut self, i: usize, hit: PopupHit, env: &Env)
        requires
            old(self)@.wf(),
            env.now <= LAST_INSTANT,
        ensures
            final(self)@ == old(self)@.close_pressed(i, hit, *env),
            final(self)@.wf(),
    {
        proof {
            reveal(AppView::close_pressed);
            lemma_unasked_wf(self@);
            lemma_stage_paint_wf(self@);
        }
        match hit {
            PopupHit::Confirm => {
                self.st = self.st.close_unasked();
                self.close_tab(i, env);
                proof {
                    lemma_stage_paint_wf(self@);
                }
                self.st = self.st.paint_main();
            },
            PopupHit::Cancel | PopupHit::Outside => {
                self.st = self.st.close_unasked().paint_main();
            },
            PopupHit::Panel => {
                self.st = self.st.paint_main();
            },
        }
    }

    fn begin_rename(&mut self, i: usize)
        requires
            old(self)@.wf(),
            i < old(self)@.tabs.len(),
        ensures
            final(self)@ == old(self)@.rename_begun(i),
            final(self)@.wf(),
    {
        proof {
            lemma_rename_begun_wf(self@, i);
            assert(self@.tabs[i as int] == self.tabs@[i as int]@);
        }
        self.rename_buf = self.tabs[i].title.clone();
        self.st = (Stage {
            ui: Overlays { renaming: Some(i), ..self.st.ui },
            ..self.st
        }).paint_main();
    }

    fn ask_close(&mut self, i: usize)
        requires
            old(self)@.wf(),
            i < old(self)@.tabs.len(),
        ensures
            final(self)@ == (AppView { st: old(self)@.st.ask_close(i), ..old(self)@ }),
            final(self)@.wf(),
    {
        proof {
            lemma_ask_close_wf(self@, i);
        }
        self.st = self.st.ask_close(i);
    }

    /// Handles a press while the menu of tab `i` is open; `row` is the entry
    /// under the pointer.
    pub fn press_tab_menu_at(&mut self, i: usize, row: Option<usize>) -> (r: Ask)
        requires
            old(self)@.wf(),
        ensures
            final(self)@ == old(self)@.tab_menu_pressed(i, old(self)@.entry_at(row)),
            r@ == old(self)@.tab_menu_ask(i, old(self)@.entry_at(row)),
            final(self)@.wf(),
    {
        let item: Option<TabMenuItem> = match row {
            Some(n) => tab_menu_item(self.st.ui.tab_menu_detach, n),
            None => None,
        };
        proof {
            reveal(AppView::tab_menu_pressed);
            lemma_menu_closed_wf(self@);
        }
        self.st = self.st.menu_closed().paint_main();
        if i < self.tabs.len() {
            match item {
                Some(TabMenuItem::Detach) => {
                    return Ask::Detach(i);
                },
                Some(TabMenuItem::Rename) => {
                    self.begin_rename(i);
                },
                Some(TabMenuItem::Close) => {
                    self.ask_close(i);
                },
                None => {},
            }
        }
        Ask::Nothing
    }

    /// Handles a press while the context menu is open; `row` is the entry
    /// under the pointer.
    pub fn press_menu_at(&mut self, row: Option<usize>) -> (r: Ask)
        requires
            old(self)@.wf(),
            old(self)@.tabs.len() > 0,
        ensures
            final(self)@ == (AppView {
                st: old(self)@.st.menu_pressed(row, old(self).active),
                ..old(self)@
            }),
            r@ == menu_ask(row),
            final(self)@.wf(),
    {
        proof {
            lemma_menu_wf(self@, row, self.active);
        }
        self.st = self.st.press_menu_row(row, self.active);
        ask_menu(row)
    }

    /// Handles a press while the help text shows.
    pub fn press_help_at(&mut self, inside: bool)
        requires
            old(self)@.wf(),
        ensures
            final(self)@ == (AppView { st: old(self)@.st.help_pressed(inside), ..old(self)@ }),
            final(self)@.wf(),
    {
        proof {
            lemma_narrow(self@.st, self@.st.help_pressed(inside));
            lemma_wf_narrow(self@, self@.st.help_pressed(inside));
        }
        self.st = (Stage {
            ui: Overlays { help_open: self.st.ui.help_open && inside, ..self.st.ui },
            ..self.st
        }).paint_main();
    }
}

impl Stage {
    /// A press on the strip now is the second of a double click.
    pub open spec fn doubles(self, near: bool, now: u64) -> bool {
        near && (self.pointer.last_strip_click matches Some(t) && now <= t + DOUBLE_CLICK)
    }

    fn is_double(self, near: bool, now: u64) -> (r: bool)
        ensures
            r == self.doubles(near, now),
    {
        match self.pointer.last_strip_click {
            Some(t) => near && (now <= t || now - t <= DOUBLE_CLICK),
            None => false,
        }
    }

    /// The strip was last pressed at `at`.
    pub open spec fn spec_clicked(self, at: Option<u64>) -> Stage {
        Stage { pointer: Pointer { last_strip_click: at, ..self.pointer }, ..self }
    }

    /// The strip was last pressed at `at`.
    #[verifier::when_used_as_spec(spec_clicked)]
    pub fn clicked(self, at: Option<u64>) -> (r: Stage)
        ensures
            r == self.spec_clicked(at),
    {
        Stage { pointer: Pointer { last_strip_click: at, ..self.pointer }, ..self }
    }

    /// The help text shows, or goes; showing, it closes the context menu.
    pub open spec fn help_toggled(self) -> Stage {
        (Stage {
            ui: Overlays {
                help_open: !self.ui.help_open,
                context_menu: self.ui.context_menu && self.ui.help_open,
                menu_hover: if self.ui.help_open {
                    self.ui.menu_hover
                } else {
                    None
                },
                ..self.ui
            },
            ..self
        }).paint_main()
    }

    fn toggle_help(self) -> (r: Stage)
        ensures
            r == self.help_toggled(),
    {
        let menu_hover: Option<usize> = if self.ui.help_open {
            self.ui.menu_hover
        } else {
            None
        };
        (Stage {
            ui: Overlays {
                help_open: !self.ui.help_open,
                context_menu: self.ui.context_menu && self.ui.help_open,
                menu_hover,
                ..self.ui
            },
            ..self
        }).paint_main()
    }

    /// Tab `i` is held; it may tear off.
    pub open spec fn spec_tab_held(self, i: usize) -> Stage {
        Stage {
            pointer: Pointer { tab_drag: Some(TabDrag { idx: i, tearing: false }), ..self.pointer },
            ..self
        }
    }

    /// Tab `i` is held; it may tear off.
    #[verifier::when_used_as_spec(spec_tab_held)]
    pub fn tab_held(self, i: usize) -> (r: Stage)
        ensures
            r == self.spec_tab_held(i),
    {
        Stage {
            pointer: Pointer { tab_drag: Some(TabDrag { idx: i, tearing: false }), ..self.pointer },
            ..self
        }
    }

    /// The window goes off the screen into the task bar.
    pub open spec fn spec_minimized(self) -> Stage {
        Stage { presence: Presence { main_occluded: true, ..self.presence }, ..self }
    }

    /// The window goes off the screen into the task bar.
    #[verifier::when_used_as_spec(spec_minimized)]
    pub fn minimized(self) -> (r: Stage)
        ensures
            r == self.spec_minimized(),
    {
        Stage { presence: Presence { main_occluded: true, ..self.presence }, ..self }
    }
}

impl AppView {
    /// The application with this scalar state.
    pub open spec fn with(self, st: Stage) -> AppView {
        AppView { st, ..self }
    }

    /// Tab `i` of the strip was pressed on.
    #[verifier::opaque]
    pub open spec fn tab_pressed(self, i: usize, double: bool, now: u64) -> AppView {
        if double {
            let v = self.with(self.st.clicked(None));
            if self.st.ui.renaming == Some(i) {
                v
            } else {
                v.rename_begun(i)
            }
        } else {
            let v = self.with(self.st.clicked(Some(now)));
            let w = (if self.st.ui.renaming == Some(i) {
                v
            } else {
                v.renamed()
            }).select_tab(i as int);
            w.with(w.st.tab_held(i))
        }
    }

    /// The strip was pressed on.
    #[verifier::opaque]
    pub open spec fn strip_pressed(self, hit: StripHit, near: bool, now: u64) -> AppView {
        let double = self.st.doubles(near, now);
        let v = self.with(self.st.clicked(Some(now)));
        match hit {
            StripHit::Help => v.with(v.st.help_toggled()),
            StripHit::Settings => v.with(v.st.panel_closed()),
            StripHit::Close => v.with(v.st.ask_quit()),
            StripHit::Maximize => v,
            StripHit::Minimize => v.with(v.st.minimized()),
            StripHit::CloseTab(i) => v.renamed().with(v.renamed().st.ask_close(i)),
            StripHit::Plus => v.renamed(),
            StripHit::Tab(i) => self.tab_pressed(i, double, now),
            StripHit::Space => if double {
                self.with(self.st.clicked(None)).renamed()
            } else {
                v.renamed()
            },
        }
    }

    /// What a press on the strip asks for.
    pub open spec fn strip_ask(self, hit: StripHit, near: bool, now: u64) -> AskView {
        match hit {
            StripHit::Settings => if self.st.presence.settings_window is None {
                AskView::OpenSettings
            } else {
                AskView::Nothing
            },
            StripHit::Maximize => AskView::ToggleMaximized,
            StripHit::Minimize => AskView::Minimize,
            StripHit::Plus => AskView::SpawnTab,
            StripHit::Space => if self.st.doubles(near, now) {
                AskView::ToggleMaximized
            } else {
                AskView::DragWindow
            },
            _ => AskView::Nothing,
        }
    }
}

proof fn lemma_with_narrow(v: AppView, st: Stage)
    requires
        v.wf(),
        v.st.narrows_to(st),
    ensures
        v.with(st).wf(),
{
    lemma_wf_narrow(v, st);
}

proof fn lemma_clicked_narrow(s: Stage, at: Option<u64>)
    ensures
        s.narrows_to(s.clicked(at)),
{
    lemma_narrow(s, s.clicked(at));
}

proof fn lemma_strip_narrow(s: Stage)
    ensures
        s.narrows_to(s.help_toggled()),
        s.narrows_to(s.panel_closed()),
        s.narrows_to(s.ask_quit()),
        s.narrows_to(s.minimized()),
{
    assert(s.narrows_to(s.help_toggled())) by {
        lemma_narrow(s, s.help_toggled());
    }
    assert(s.narrows_to(s.panel_closed())) by {
        lemma_narrow(s, s.panel_closed());
    }
    assert(s.narrows_to(s.ask_quit())) by {
        lemma_narrow(s, s.ask_quit());
    }
    assert(s.narrows_to(s.minimized())) by {
        lemma_narrow(s, s.minimized());
    }
}

proof fn lemma_held_wf(v: AppView, i: usize)
    requires
        v.wf(),
        i < v.tabs.len(),
    ensures
        v.with(v.st.tab_held(i)).wf(),
{
}

impl App {
    fn click(&mut self, at: Option<u64>)
        requires
            old(self)@.wf(),
        ensures
            final(self)@ == old(self)@.with(old(self)@.st.clicked(at)),
            final(self)@.wf(),
    {
        proof {
            lemma_clicked_narrow(self@.st, at);
            lemma_with_narrow(self@, self@.st.clicked(at));
        }
        self.st = self.st.clicked(at);
    }

    fn press_tab(&mut self, i: usize, double: bool, now: u64)
        requires
            old(self)@.wf(),
            i < old(self)@.tabs.len(),
        ensures
            final(self)@ == old(self)@.tab_pressed(i, double, now),
            final(self)@.wf(),
    {
        proof {
            reveal(AppView::tab_pressed);
        }
        let same: bool = match self.st.ui.renaming {
            Some(j) => j == i,
            None => false,
        };
        if double {
            self.click(None);
            if !same {
                self.begin_rename(i);
            }
            return;
        }
        self.click(Some(now));
        if !same {
            self.commit_rename();
        }
        self.select_tab(i);
        self.hold_tab(i);
    }

    fn hold_tab(&mut self, i: usize)
        requires
            old(self)@.wf(),
            i < old(self)@.tabs.len(),
        ensures
            final(self)@ == old(self)@.with(old(self)@.st.tab_held(i)),
            final(self)@.wf(),
    {
        proof {
            lemma_held_wf(self@, i);
        }
        self.st = self.st.tab_held(i);
    }

    fn press_button(&mut self, hit: StripHit)
        requires
            old(self)@.wf(),
        ensures
            final(self)@ == old(self)@.with(
                match hit {
                    StripHit::Help => old(self)@.st.help_toggled(),
                    StripHit::Settings => old(self)@.st.panel_closed(),
                    StripHit::Close => old(self)@.st.ask_quit(),
                    StripHit::Minimize => old(self)@.st.minimized(),
                    _ => old(self)@.st,
                },
            ),
            final(self)@.wf(),
    {
        proof {
            lemma_strip_narrow(self@.st);
            match hit {
                StripHit::Help => lemma_with_narrow(self@, self@.st.help_toggled()),
                StripHit::Settings => lemma_with_narrow(self@, self@.st.panel_closed()),
                StripHit::Close => lemma_with_narrow(self@, self@.st.ask_quit()),
                StripHit::Minimize => lemma_with_narrow(self@, self@.st.minimized()),
                _ => {},
            }
        }
        self.st = match hit {
            StripHit::Help => self.st.toggle_help(),
            StripHit::Settings => self.st.close_panel(),
            StripHit::Close => self.st.ask_quit(),
            StripHit::Minimize => self.st.minimized(),
            _ => self.st,
        };
    }

    /// Handles a press on the tab strip; `near` tells that the last press on it
    /// was at the same place.
    pub fn press_strip_at(&mut self, hit: StripHit, near: bool, now: u64) -> (r: Ask)
        requires
            old(self)@.wf(),
            hit matches StripHit::Tab(i) ==> i < old(self)@.tabs.len(),
            hit matches StripHit::CloseTab(i) ==> i < old(self)@.tabs.len(),
        ensures
            final(self)@ == old(self)@.strip_pressed(hit, near, now),
            r@ == old(self)@.strip_ask(hit, near, now),
            final(self)@.wf(),
    {
        proof {
            reveal(AppView::strip_pressed);
        }
        let double: bool = self.st.is_double(near, now);
        match hit {
            StripHit::Help | StripHit::Close => {
                self.click(Some(now));
                self.press_button(hit);
                Ask::Nothing
            },
            StripHit::Settings => {
                let none: bool = self.st.presence.settings_window.is_none();
                self.click(Some(now));
                self.press_button(hit);
                if none {
                    Ask::OpenSettings
                } else {
                    Ask::Nothing
                }
            },
            StripHit::Maximize => {
                self.click(Some(now));
                Ask::ToggleMaximized
            },
            StripHit::Minimize => {
                self.click(Some(now));
                self.press_button(hit);
                Ask::Minimize
            },
            StripHit::CloseTab(i) => {
                self.click(Some(now));
                self.commit_rename();
                self.ask_close(i);
                Ask::Nothing
            },
            StripHit::Plus => {
                self.click(Some(now));
                self.commit_rename();
                Ask::SpawnTab
            },
            StripHit::Tab(i) => {
                self.press_tab(i, double, now);
                Ask::Nothing
            },
            StripHit::Space => if double {
                self.click(None);
                self.commit_rename();
                Ask::ToggleMaximized
            } else {
                self.click(Some(now));
                self.commit_rename();
                Ask::DragWindow
            },
        }
    }
}

/// What a press beside the strip meets.
#[derive(Debug)]
pub struct GridPress {
    pub bar: BarHit,
    /// The modifier that makes links clickable is held.
    pub link_held: bool,
    pub shift: bool,
    /// The pointer is over the grid, between the bars.
    pub over_grid: bool,
    /// The link in the cell under the pointer.
    pub link: Option<String>,
    /// The program reads the mouse.
    pub mouse_mode: bool,
}

/// View of a [`GridPress`].
pub struct GridPressView {
    pub bar: BarHit,
    pub link_held: bool,
    pub shift: bool,
    pub over_grid: bool,
    pub link: Option<Seq<char>>,
    pub mouse_mode: bool,
}

impl View for GridPress {
    type V = GridPressView;

    open spec fn view(&self) -> GridPressView {
        GridPressView {
            bar: self.bar,
            link_held: self.link_held,
            shift: self.shift,
            over_grid: self.over_grid,
            link: match self.link {
                Some(t) => Some(t@),
                None => None,
            },
            mouse_mode: self.mouse_mode,
        }
    }
}

/// What a press over the grid does.
#[derive(Debug, Clone, Copy, PartialEq, Eq, Structural)]
pub enum GridUse {
    /// It holds the thumb of the scroll bar.
    HoldThumb,
    /// It moves the thumb to the pointer and holds it.
    JumpThumb,
    /// It follows a link.
    Follow,
    /// It is the program's.
    Report,
    /// It begins a text selection.
    Select,
}

impl GridPressView {
    /// What the press does. Shift keeps it from the program and from links.
    pub open spec fn purpose(self) -> GridUse {
        match self.bar {
            BarHit::Thumb => GridUse::HoldThumb,
            BarHit::Track => GridUse::JumpThumb,
            BarHit::Outside => if self.link_held && !self.shift && self.over_grid && self.link
                is Some {
                GridUse::Follow
            } else if self.mouse_mode && !self.shift {
                GridUse::Report
            } else {
                GridUse::Select
            },
        }
    }
}

impl GridPress {
    /// What the press does.
    pub fn purpose(&self) -> (r: GridUse)
        ensures
            r == self@.purpose(),
    {
        match self.bar {
            BarHit::Thumb => GridUse::HoldThumb,
            BarHit::Track => GridUse::JumpThumb,
            BarHit::Outside => if self.link_held && !self.shift && self.over_grid
                && self.link.is_some() {
                GridUse::Follow
            } else if self.mouse_mode && !self.shift {
                GridUse::Report
            } else {
                GridUse::Select
            },
        }
    }
}

impl Stage {
    /// The welcome text is gone; the window repaints where it was there.
    pub open spec fn welcome_left(self) -> Stage {
        Stage {
            ui: Overlays { welcome_open: false, ..self.ui },
            due: Due { paint_main: self.due.paint_main || self.ui.welcome_open, ..self.due },
            ..self
        }
    }

    fn leave_welcome(self) -> (r: Stage)
        ensures
            r == self.welcome_left(),
    {
        Stage {
            ui: Overlays { welcome_open: false, ..self.ui },
            due: Due { paint_main: self.due.paint_main || self.ui.welcome_open, ..self.due },
            ..self
        }
    }

    /// A press over the grid of tab `active` is used like this.
    pub open spec fn grid_used(self, how: GridUse, active: Option<u64>) -> Stage {
        match how {
            GridUse::HoldThumb => Stage {
                pointer: Pointer { dragging_scrollbar: true, ..self.pointer },
                ..self
            },
            GridUse::JumpThumb => (Stage {
                pointer: Pointer { dragging_scrollbar: true, ..self.pointer },
                ..self
            }).relink_and_paint(),
            GridUse::Follow => self,
            GridUse::Report => Stage {
                pointer: Pointer { grabbed: true, ..self.pointer },
                ..self
            },
            GridUse::Select => (Stage {
                pointer: Pointer { selecting: true, ..self.pointer },
                ..self.clear_selection(active)
            }).paint_main(),
        }
    }

    fn use_grid(self, how: GridUse, active: Option<u64>) -> (r: Stage)
        ensures
            r == self.grid_used(how, active),
    {
        match how {
            GridUse::HoldThumb => Stage {
                pointer: Pointer { dragging_scrollbar: true, ..self.pointer },
                ..self
            },
            GridUse::JumpThumb => (Stage {
                pointer: Pointer { dragging_scrollbar: true, ..self.pointer },
                ..self
            }).relink_and_paint(),
            GridUse::Follow => self,
            GridUse::Report => Stage {
                pointer: Pointer { grabbed: true, ..self.pointer },
                ..self
            },
            GridUse::Select => (Stage {
                pointer: Pointer { selecting: true, ..self.pointer },
                ..self.clear_selection(active)
            }).paint_main(),
        }
    }
}

/// What a press over the grid asks for.
pub open spec fn grid_ask(g: GridPressView) -> AskView {
    match g.purpose() {
        GridUse::HoldThumb => AskView::Nothing,
        GridUse::JumpThumb => AskView::ScrollToPointer,
        GridUse::Follow => open_ask(g.link->0),
        GridUse::Report => AskView::Report(MouseReport::LeftPress, 1),
        GridUse::Select => AskView::BeginSelection,
    }
}

pub(crate) fn ask_grid(g: &GridPress) -> (r: Ask)
    ensures
        r@ == grid_ask(g@),
{
    match g.purpose() {
        GridUse::HoldThumb => Ask::Nothing,
        GridUse::JumpThumb => Ask::ScrollToPointer,
        GridUse::Follow => match &g.link {
            Some(url) => open_url(url.as_str()),
            None => Ask::Nothing,
        },
        GridUse::Report => Ask::Report(MouseReport::LeftPress, 1),
        GridUse::Select => Ask::BeginSelection,
    }
}

proof fn lemma_grid_narrow(s: Stage, how: GridUse, active: Option<u64>)
    ensures
        s.narrows_to(s.welcome_left().grid_used(how, active)),
{
    let w = s.welcome_left();
    let t = w.grid_used(how, active);
    assert(t.ui == w.ui && t.pointer.tab_drag == s.pointer.tab_drag && t.due.exit == s.due.exit);
    lemma_narrow(s, t);
}

impl AppView {
    /// The grid or its scroll bar was pressed on.
    #[verifier::opaque]
    pub open spec fn grid_pressed(self, how: GridUse) -> AppView {
        let v = self.renamed();
        v.with(v.st.welcome_left().grid_used(how, v.active_id()))
    }

    /// A press that no overlay takes.
    pub open spec fn open_pressed(self, p: OpenPress, now: u64) -> AppView {
        if self.st.ui.search_open && p.search is Close {
            self.search_close()
        } else if (self.st.ui.search_open && p.search is Panel) || p.zone != ResizeZone::Interior {
            self
        } else {
            match p.strip {
                Some(hit) => self.strip_pressed(hit, p.near, now),
                None => self.grid_pressed(p.grid@.purpose()),
            }
        }
    }

    /// What a press that no overlay takes asks for.
    pub open spec fn open_press_ask(self, p: OpenPress, now: u64) -> AskView {
        if self.st.ui.search_open && !(p.search is Outside) {
            AskView::Nothing
        } else {
            match p.zone.pulls() {
                Some(d) => AskView::DragResize(d),
                None => match p.strip {
                    Some(hit) => self.strip_ask(hit, p.near, now),
                    None => grid_ask(p.grid@),
                },
            }
        }
    }
}

/// What a press that no overlay takes meets.
#[derive(Debug)]
pub struct OpenPress {
    pub search: SearchHit,
    pub zone: ResizeZone,
    /// What it hits on the tab strip, if it is on the strip.
    pub strip: Option<StripHit>,
    /// The last press on the strip was at the same place.
    pub near: bool,
    pub grid: GridPress,
}

impl App {
    fn press_grid(&mut self, g: &GridPress) -> (r: Ask)
        requires
            old(self)@.wf(),
        ensures
            final(self)@ == old(self)@.grid_pressed(g@.purpose()),
            r@ == grid_ask(g@),
            final(self)@.wf(),
    {
        proof {
            reveal(AppView::grid_pressed);
        }
        self.commit_rename();
        let id: Option<u64> = self.active_tab_id();
        let how: GridUse = g.purpose();
        proof {
            lemma_grid_narrow(self@.st, how, id);
            lemma_with_narrow(self@, self@.st.welcome_left().grid_used(how, id));
        }
        self.st = self.st.leave_welcome().use_grid(how, id);
        ask_grid(g)
    }

    /// Handles a press that no overlay takes: the search bar first, then the
    /// edges, the strip and the grid.
    pub fn press_open_at(&mut self, p: OpenPress, now: u64) -> (r: Ask)
        requires
            old(self)@.wf(),
            p.strip matches Some(StripHit::Tab(i)) ==> i < old(self)@.tabs.len(),
            p.strip matches Some(StripHit::CloseTab(i)) ==> i < old(self)@.tabs.len(),
        ensures
            final(self)@ == old(self)@.open_pressed(p, now),
            r@ == old(self)@.open_press_ask(p, now),
            final(self)@.wf(),
    {
        if self.st.ui.search_open {
            match p.search {
                SearchHit::Close => {
                    self.close_search_bar();
                    return Ask::Nothing;
                },
                SearchHit::Panel => {
                    return Ask::Nothing;
                },
                SearchHit::Outside => {},
            }
        }
        if let Some(d) = p.zone.direction() {
            return Ask::DragResize(d);
        }
        match p.strip {
            Some(hit) => self.press_strip_at(hit, p.near, now),
            None => self.press_grid(&p.grid),
        }
    }

    fn close_search_bar(&mut self)
        requires
            old(self)@.wf(),
        ensures
            final(self)@ == old(self)@.search_close(),
            final(self)@.wf(),
    {
        let id: Option<u64> = self.active_tab_id();
        proof {
            lemma_narrow(self@.st, self@.st.search_closed(id));
            lemma_wf_narrow(self@, self@.st.search_closed(id));
        }
        self.search_close();
    }
}

/// With Shift held a press over the grid is never the program's and follows no
/// link: it selects text.
pub proof fn law_shift_selects(g: GridPressView)
    requires
        g.shift,
        g.bar is Outside,
    ensures
        g.purpose() == GridUse::Select,
{
}

/// A press at an edge only resizes the window.
pub proof fn law_edge_press_resizes(v: AppView, p: OpenPress, now: u64)
    requires
        p.zone != ResizeZone::Interior,
        !v.st.ui.search_open,
    ensures
        v.open_pressed(p, now) == v,
        v.open_press_ask(p, now) is DragResize,
{
}

/// A second press on a tab whose title is being edited keeps what was typed.
pub proof fn law_double_click_keeps_edit(v: AppView, i: usize, now: u64)
    requires
        v.st.ui.renaming == Some(i),
    ensures
        v.tab_pressed(i, true, now).rename_buf == v.rename_buf,
        v.tab_pressed(i, true, now).st.ui.renaming == Some(i),
{
    reveal(AppView::tab_pressed);
}

/// The entries of a tab's menu differ from row to row, and "Detach" is among
/// them only where the tab could be detached.
pub proof fn law_menu_rows_differ(detach: bool, i: usize, j: usize)
    requires
        i != j,
        menu_entry(detach, i) is Some,
    ensures
        menu_entry(detach, i) != menu_entry(detach, j),
        !detach ==> menu_entry(detach, i) != Some(TabMenuItem::Detach),
{
}

/// The entries of the right-click menu, from the top: Copy, Paste, Select All,
/// Clear, Close Tab. Copy and Paste ask for what their keys ask for, Clear
/// sends the shell a form feed, and Close Tab asks before it closes; any choice
/// closes the menu.
pub proof fn law_menu_entries(s: Stage, row: Option<usize>, active: usize)
    ensures
        menu_ask(Some(0usize)) == AskView::CopySelection,
        menu_ask(Some(1usize)) == AskView::PasteClipboard,
        menu_ask(Some(2usize)) == AskView::SelectAll,
        menu_ask(Some(3usize)) == AskView::Send(seq![0x0cu8]),
        menu_ask(Some(4usize)) == AskView::Nothing,
        menu_ask(Some(0usize)) == s.action_ask(crate::input::KeyAction::Copy, active),
        menu_ask(Some(1usize)) == s.action_ask(crate::input::KeyAction::Paste, active),
        menu_ask(Some(2usize)) == s.action_ask(crate::input::KeyAction::SelectAll, active),
        row is None || row->0 > 3 ==> menu_ask(row) == AskView::Nothing,
        s.menu_pressed(Some(4usize), active).ui.confirm_close == Some(active),
        row != Some(4usize) ==> s.menu_pressed(row, active).ui.confirm_close == s.ui.confirm_close,
        !s.menu_pressed(row, active).ui.context_menu,
        s.menu_pressed(row, active).due.paint_main,
        s.menu_pressed(row, active).due.exit == s.due.exit,
{
}

/// The entries of a tab's menu, from the top: Detach where the tab may leave,
/// Rename, Close. Each acts on the tab that the menu is of, Rename begins with
/// its title, and Close only asks.
pub proof fn law_tab_menu_entries(v: AppView, i: usize)
    requires
        i < v.tabs.len(),
    ensures
        menu_entry(true, 0) == Some(TabMenuItem::Detach),
        menu_entry(true, 1) == Some(TabMenuItem::Rename),
        menu_entry(true, 2) == Some(TabMenuItem::Close),
        menu_entry(false, 0) == Some(TabMenuItem::Rename),
        menu_entry(false, 1) == Some(TabMenuItem::Close),
        menu_entry(false, 2) is None,
        v.tab_menu_ask(i, Some(TabMenuItem::Detach)) == AskView::Detach(i as int),
        v.tab_menu_ask(i, Some(TabMenuItem::Rename)) == AskView::Nothing,
        v.tab_menu_ask(i, Some(TabMenuItem::Close)) == AskView::Nothing,
        v.tab_menu_pressed(i, Some(TabMenuItem::Rename)).st.ui.renaming == Some(i),
        v.tab_menu_pressed(i, Some(TabMenuItem::Rename)).rename_buf == v.tabs[i as int].title,
        v.tab_menu_pressed(i, Some(TabMenuItem::Close)).st.ui.confirm_close == Some(i),
        v.tab_menu_pressed(i, Some(TabMenuItem::Close)).st.ui.renaming == v.st.ui.renaming,
        v.tab_menu_pressed(i, Some(TabMenuItem::Detach)).st.ui.renaming == v.st.ui.renaming,
{
    reveal(AppView::tab_menu_pressed);
}

/// A choice in a tab's menu closes that menu and moves or closes no tab.
pub proof fn law_tab_menu_closes(v: AppView, i: usize, item: Option<TabMenuItem>)
    ensures
        v.tab_menu_pressed(i, item).st.ui.tab_menu is None,
        v.tab_menu_pressed(i, item).st.due.paint_main,
        v.tab_menu_pressed(i, item).tabs == v.tabs,
        v.tab_menu_pressed(i, item).active == v.active,
        item is None ==> v.tab_menu_ask(i, item) == AskView::Nothing,
        i >= v.tabs.len() ==> v.tab_menu_ask(i, item) == AskView::Nothing,
{
    reveal(AppView::tab_menu_pressed);
}

/// A press on a row of the palette runs that command, one beside the palette
/// closes it, and one on its frame does nothing.
pub proof fn law_palette_presses(v: AppView, i: usize)
    requires
        v.st.ui.palette_open,
    ensures
        i < v.palette.hits.len() ==> v.palette_press_ask(PaletteHit::Row(i)) == AskView::Run(
            v.palette.hits[i as int],
        ),
        v.palette_press_ask(PaletteHit::Outside) == AskView::Nothing,
        v.palette_press_ask(PaletteHit::Panel) == AskView::Nothing,
        !v.palette_pressed(PaletteHit::Row(i)).st.ui.palette_open,
        !v.palette_pressed(PaletteHit::Outside).st.ui.palette_open,
        v.palette_pressed(PaletteHit::Panel) == v,
{
}

/// The popup before quitting: only Confirm ends the application; Cancel and a
/// press beside it close the popup, one on its frame leaves it.
pub proof fn law_quit_popup_presses(s: Stage, hit: PopupHit)
    ensures
        s.quit_pressed(PopupHit::Confirm).due.exit,
        hit != PopupHit::Confirm ==> s.quit_pressed(hit).due.exit == s.due.exit,
        !s.quit_pressed(PopupHit::Cancel).ui.confirm_quit,
        !s.quit_pressed(PopupHit::Outside).ui.confirm_quit,
        s.quit_pressed(PopupHit::Panel).ui == s.ui,
{
}

/// The popup before closing a tab: only Confirm closes it, and that tab; Cancel
/// and a press beside it close the popup, one on its frame leaves it.
pub proof fn law_close_popup_presses(v: AppView, i: usize, hit: PopupHit, env: Env)
    requires
        i < v.tabs.len(),
        v.tabs.len() >= 2,
    ensures
        v.close_pressed(i, PopupHit::Confirm, env).tabs == v.tabs.remove(i as int),
        v.close_pressed(i, PopupHit::Confirm, env).st.ui.confirm_close is None,
        hit != PopupHit::Confirm ==> v.close_pressed(i, hit, env).tabs == v.tabs,
        hit != PopupHit::Confirm ==> v.close_pressed(i, hit, env).active == v.active,
        v.close_pressed(i, PopupHit::Cancel, env).st.ui.confirm_close is None,
        v.close_pressed(i, PopupHit::Outside, env).st.ui.confirm_close is None,
        v.close_pressed(i, PopupHit::Panel, env).st.ui == v.st.ui,
        v.close_pressed(i, hit, env).st.due.paint_main,
{
    reveal(AppView::close_pressed);
}

/// The help text stays for a press inside it and goes for one beside it.
pub proof fn law_help_presses(s: Stage)
    requires
        s.ui.help_open,
    ensures
        s.help_pressed(true).ui.help_open,
        !s.help_pressed(false).ui.help_open,
{
}

/// Two presses at one place within four tenths of a second are a double click.
pub proof fn law_double_click(s: Stage, first: u64, now: u64)
    requires
        first <= now,
    ensures
        s.clicked(Some(first)).doubles(true, now) <==> now - first <= 400_000_000,
        !s.clicked(Some(first)).doubles(false, now),
        !s.clicked(None).doubles(true, now),
{
}

/// The buttons of the strip do what they show: help, settings, quitting after
/// a question, the size of the window, a new tab.
pub proof fn law_strip_buttons(v: AppView, near: bool, now: u64, i: usize)
    ensures
        v.strip_pressed(StripHit::Help, near, now).st.ui.help_open == !v.st.ui.help_open,
        v.strip_ask(StripHit::Help, near, now) == AskView::Nothing,
        (v.strip_ask(StripHit::Settings, near, now) == AskView::OpenSettings) == (
        v.st.presence.settings_window is None),
        v.strip_pressed(StripHit::Settings, near, now).st.presence.settings_window is None,
        v.strip_pressed(StripHit::Close, near, now).st.ui.confirm_quit,
        v.strip_pressed(StripHit::Close, near, now).st.due.exit == v.st.due.exit,
        v.strip_ask(StripHit::Close, near, now) == AskView::Nothing,
        v.strip_ask(StripHit::Maximize, near, now) == AskView::ToggleMaximized,
        v.strip_ask(StripHit::Minimize, near, now) == AskView::Minimize,
        v.strip_pressed(StripHit::Minimize, near, now).st.presence.main_occluded,
        v.strip_pressed(StripHit::Maximize, near, now).st.presence == v.st.presence,
        v.strip_ask(StripHit::Plus, near, now) == AskView::SpawnTab,
        v.strip_ask(StripHit::CloseTab(i), near, now) == AskView::Nothing,
        v.strip_pressed(StripHit::CloseTab(i), near, now).st.ui.confirm_close == Some(i),
        v.strip_pressed(StripHit::CloseTab(i), near, now).tabs.len() == v.tabs.len(),
        v.strip_pressed(StripHit::Plus, near, now).st.ui.renaming is None,
        v.strip_ask(StripHit::Tab(i), near, now) == AskView::Nothing,
{
    reveal(AppView::strip_pressed);
}

/// A press on a tab selects it and takes hold of it; a double click renames it
/// instead, beginning with its title.
pub proof fn law_tab_presses(v: AppView, i: usize, near: bool, now: u64)
    requires
        i < v.tabs.len(),
    ensures
        ({
            let after = v.strip_pressed(StripHit::Tab(i), near, now);
            let double = v.st.doubles(near, now);
            &&& after.tabs.len() == v.tabs.len()
            &&& !double ==> after.active == i
            &&& !double ==> after.st.pointer.tab_drag == Some(TabDrag { idx: i, tearing: false })
            &&& !double ==> after.st.pointer.last_strip_click == Some(now)
            &&& !double && v.st.ui.renaming != Some(i) ==> after.st.ui.renaming is None
            &&& double ==> after.st.ui.renaming == Some(i) && after.active == v.active
            &&& double && v.st.ui.renaming != Some(i) ==> after.rename_buf == v.tabs[i as int].title
            &&& double ==> after.st.pointer.last_strip_click is None
        }),
{
    reveal(AppView::strip_pressed);
    reveal(AppView::tab_pressed);
}

/// The free part of the strip moves the window, and maximizes it on a double
/// click.
pub proof fn law_strip_space(v: AppView, near: bool, now: u64)
    ensures
        v.strip_ask(StripHit::Space, near, now) == if v.st.doubles(near, now) {
            AskView::ToggleMaximized
        } else {
            AskView::DragWindow
        },
        v.strip_pressed(StripHit::Space, near, now).st.ui.renaming is None,
        v.strip_pressed(StripHit::Space, near, now).active == v.active,
{
    reveal(AppView::strip_pressed);
}

/// A press over the grid: the scroll bar comes first, then a link under the
/// held modifier, then a program that reads the mouse, and else text is
/// selected.
pub proof fn law_grid_presses(v: AppView, g: GridPressView)
    ensures
        ({
            let ask = grid_ask(g);
            let after = v.grid_pressed(g.purpose());
            let follows = g.bar is Outside && g.link_held && !g.shift && g.over_grid && g.link is Some;
            &&& g.bar is Thumb ==> ask == AskView::Nothing && after.st.pointer.dragging_scrollbar
            &&& g.bar is Track ==> ask == AskView::ScrollToPointer
                && after.st.pointer.dragging_scrollbar && after.st.due.paint_main
                && after.st.due.relink
            &&& follows ==> (ask is OpenUrl || ask is RefuseUrl) && after.st.pointer
                == v.renamed().st.pointer
            &&& g.bar is Outside && !follows && g.mouse_mode && !g.shift ==> ask == AskView::Report(
                MouseReport::LeftPress,
                1,
            ) && after.st.pointer.grabbed && after.st.pointer.selecting == v.st.pointer.selecting
            &&& g.bar is Outside && !follows && (!g.mouse_mode || g.shift) ==> ask
                == AskView::BeginSelection && after.st.pointer.selecting && after.st.due.paint_main
                && after.st.pointer.grabbed == v.st.pointer.grabbed
            &&& !after.st.ui.welcome_open && after.st.ui.renaming is None
            &&& v.st.ui.welcome_open ==> after.st.due.paint_main
            &&& after.tabs.len() == v.tabs.len() && after.active == v.active
        }),
{
    reveal(AppView::grid_pressed);
}

/// A selection that begins drops the one that the active tab had.
pub proof fn law_new_selection_replaces_the_old(v: AppView)
    requires
        0 <= v.active < v.tabs.len(),
    ensures
        v.grid_pressed(GridUse::Select).st.due.selection_clear == Some(v.tabs[v.active].id),
{
    reveal(AppView::grid_pressed);
}

/// Whose a press is: the palette's, else a popup's, else a menu's, else the
/// help text's, else nobody's in particular.
pub proof fn law_press_owner(s: Stage)
    ensures
        s.ui.palette_open ==> s.press_owner() == PressOwner::Palette,
        !s.ui.palette_open && s.ui.confirm_quit ==> s.press_owner() == PressOwner::Quit,
        !s.ui.palette_open && !s.ui.confirm_quit ==> (s.ui.confirm_close matches Some(i)
            ==> s.press_owner() == PressOwner::Close(i)),
        !s.ui.palette_open && !s.ui.confirm_quit && s.ui.confirm_close is None ==> (
        s.ui.tab_menu matches Some(i) ==> s.press_owner() == PressOwner::TabMenu(i)),
        s.press_owner() == PressOwner::Menu ==> s.ui.context_menu,
        s.press_owner() == PressOwner::Help ==> s.ui.help_open,
        s.press_owner() == PressOwner::Open <==> !s.ui.palette_open && !s.ui.confirm_quit
            && s.ui.confirm_close is None && s.ui.tab_menu is None && !s.ui.context_menu
            && !s.ui.help_open,
        s.ui.context_menu && s.ui.tab_menu is None && s.ui.confirm_close is None
            && !s.ui.confirm_quit && !s.ui.palette_open ==> s.press_owner() == PressOwner::Menu,
{
}

/// A press goes nowhere while there is no tab, nothing to draw on, the window
/// slides in or labels are shown; it ends copy mode otherwise.
pub proof fn law_press_begins(v: AppView, surface: bool)
    ensures
        v.press_ignored(surface) <==> v.tabs.len() == 0 || !surface || v.st.timers.slide_anim
            is Some || v.hint is Some,
        v.press_begun().st.ui.copy_mode is None,
        v.st.ui.copy_mode is None ==> v.press_begun() == v,
{
    reveal(AppView::copy_left);
}

/// With the search bar open, its cross closes it and the rest of it swallows
/// the press.
pub proof fn law_search_bar_presses(v: AppView, p: OpenPress, now: u64)
    requires
        v.st.ui.search_open,
    ensures
        p.search is Close ==> !v.open_pressed(p, now).st.ui.search_open,
        p.search is Panel ==> v.open_pressed(p, now) == v,
        !(p.search is Outside) ==> v.open_press_ask(p, now) == AskView::Nothing,
{
}

/// Inside the window a press is the strip's where it hits the strip, and else
/// the grid's.
pub proof fn law_open_presses(v: AppView, p: OpenPress, now: u64)
    requires
        !v.st.ui.search_open,
        p.zone == ResizeZone::Interior,
    ensures
        p.strip matches Some(hit) ==> v.open_pressed(p, now) == v.strip_pressed(hit, p.near, now)
            && v.open_press_ask(p, now) == v.strip_ask(hit, p.near, now),
        p.strip is None ==> v.open_pressed(p, now) == v.grid_pressed(p.grid@.purpose())
            && v.open_press_ask(p, now) == grid_ask(p.grid@),
{
}

/// A press is seen as it is.
pub proof fn law_grid_press_is_seen_as_it_is(g: GridPress)
    ensures
        g@.bar == g.bar,
        g@.link_held == g.link_held,
        g@.shift == g.shift,
        g@.over_grid == g.over_grid,
        g@.mouse_mode == g.mouse_mode,
        g.link is None <==> g@.link is None,
        g.link matches Some(t) ==> g@.link == Some(t@),
{
}

/// Toggling the help opens or closes it and paints that; opening it closes the
/// menu of the grid, closing it leaves that menu alone.
pub proof fn law_help_toggles(s: Stage)
    ensures
        s.help_toggled().ui.help_open == !s.ui.help_open,
        !s.ui.help_open ==> !s.help_toggled().ui.context_menu && s.help_toggled().ui.menu_hover
            is None,
        s.ui.help_open ==> s.help_toggled().ui.context_menu == s.ui.context_menu
            && s.help_toggled().ui.menu_hover == s.ui.menu_hover,
        s.help_toggled().due.paint_main,
        s.help_toggled().ui.palette_open == s.ui.palette_open,
        s.help_toggled().ui.welcome_open == s.ui.welcome_open,
{
}

} // verus!
