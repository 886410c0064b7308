//! The settings window: its actions, its sliders and its lists.

use vstd::prelude::*;

use crate::effect::SummonEffect;
use crate::input::{Ask, AskView, Slider};
use crate::mode::WindowMode;
use crate::presence::{Env, AUTOHIDE_GRACE, LAST_INSTANT};
use crate::settings::{
    lemma_setters_keep, row_down, row_up, scroll_down, scroll_up, MAX_FONT_ROWS, MAX_THEME_ROWS,
    MAX_UI_FONT_ROWS,
};
use crate::shells::{cycle_shell, cycled};
use crate::state::{
    texts, App, AppView, FxToggles, Panel, Pointer, Prefs, Presence, Stage, TextPrefsView, Timers,
};
use crate::steps::{cycle_notify_min, cycle_scrollback, is_cycled, notify_steps, scrollback_steps};
use crate::tabs::{lemma_keep, lemma_narrow_trans, lemma_wf_narrow};

verus! {

/// The switches of the settings window.
#[derive(Debug, Clone, Copy, PartialEq, Eq, Structural)]
pub enum Switch {
    NotifyOnFinish,
    NotifyOnlyFailure,
    AutoSummon,
    FocusAutohide,
    LaunchAtLogin,
    Crt,
    CrtRoll,
    CrtFlicker,
    CrtJitter,
    CaretFlash,
    CaretGlow,
}

/// What a press in the settings window means. The `bool` of a list scrolls it
/// up, that of a row of choices goes forward.
#[derive(Debug, Clone, Copy, PartialEq, Eq, Structural)]
pub enum SettingsAction {
    Nothing,
    Drag(Slider),
    Flip(Switch),
    SetTheme(usize),
    ToggleThemes,
    ThemeRow(bool),
    FontMinus,
    FontPlus,
    FontReset,
    SetFont(usize),
    FontRow(bool),
    UiFontMinus,
    UiFontPlus,
    UiFontReset,
    SetUiFont(usize),
    UiFontRow(bool),
    Summon(bool),
    Mode(bool),
    TabBar,
    Scrollback(bool),
    NotifyMin(bool),
    Shell(bool),
    Page(usize),
}

impl SettingsAction {
    /// The action is one of the theme list's.
    pub open spec fn in_theme_list(self) -> bool {
        self is SetTheme || self is ToggleThemes || self is ThemeRow
    }

    fn is_theme_list(self) -> (r: bool)
        ensures
            r == self.in_theme_list(),
    {
        match self {
            SettingsAction::SetTheme(_)
            | SettingsAction::ToggleThemes
            | SettingsAction::ThemeRow(_) => true,
            _ => false,
        }
    }
}

impl Stage {
    /// The list of themes closes when anything else is touched.
    #[verifier::opaque]
    pub open spec fn list_left(self, a: SettingsAction) -> Stage {
        Stage {
            panel: Panel {
                theme_dropdown_open: self.panel.theme_dropdown_open && a.in_theme_list(),
                ..self.panel
            },
            ..self
        }
    }

    fn leave_list(self, a: SettingsAction) -> (r: Stage)
        ensures
            r == self.list_left(a),
    {
        proof {
            reveal(Stage::list_left);
        }
        Stage {
            panel: Panel {
                theme_dropdown_open: self.panel.theme_dropdown_open && a.is_theme_list(),
                ..self.panel
            },
            ..self
        }
    }

    /// A slider can be dragged; the docked window's size only where it docks.
    pub open spec fn slides(self, s: Slider) -> bool {
        (s is DropdownHeight || s is DropdownWidth) ==> self.prefs.window_mode
            == WindowMode::Dropdown
    }

    /// A slider is held.
    pub open spec fn held(self, s: Slider) -> Pointer {
        match s {
            Slider::Opacity => Pointer { dragging_slider: true, ..self.pointer },
            Slider::Radius => Pointer { dragging_radius: true, ..self.pointer },
            Slider::DropdownHeight => Pointer { dragging_dropdown: true, ..self.pointer },
            Slider::DropdownWidth => Pointer { dragging_dropdown_width: true, ..self.pointer },
            Slider::Fx(f) => Pointer { active_fx_drag: Some(f), ..self.pointer },
        }
    }

    /// A drag of a slider begins.
    #[verifier::opaque]
    pub open spec fn drag_begun(self, s: Slider) -> Stage {
        let h = Stage { pointer: self.held(s), ..self };
        if !self.slides(s) {
            self
        } else if s is Opacity {
            h.apply_theme()
        } else {
            h
        }
    }

    fn is_sliding(self, s: Slider) -> (r: bool)
        ensures
            r == self.slides(s),
    {
        match s {
            Slider::DropdownHeight | Slider::DropdownWidth => self.prefs.window_mode
                == WindowMode::Dropdown,
            _ => true,
        }
    }

    fn hold(self, s: Slider) -> (r: Pointer)
        ensures
            r == self.held(s),
    {
        match s {
            Slider::Opacity => Pointer { dragging_slider: true, ..self.pointer },
            Slider::Radius => Pointer { dragging_radius: true, ..self.pointer },
            Slider::DropdownHeight => Pointer { dragging_dropdown: true, ..self.pointer },
            Slider::DropdownWidth => Pointer { dragging_dropdown_width: true, ..self.pointer },
            Slider::Fx(f) => Pointer { active_fx_drag: Some(f), ..self.pointer },
        }
    }

    fn begin_drag(self, s: Slider) -> (r: Stage)
        ensures
            r == self.drag_begun(s),
    {
        proof {
            reveal(Stage::drag_begun);
        }
        if !self.is_sliding(s) {
            return self;
        }
        let h: Stage = Stage { pointer: self.hold(s), ..self };
        match s {
            Slider::Opacity => h.apply_theme(),
            _ => h,
        }
    }

    /// The settings with one switch flipped.
    pub open spec fn flipped(self, w: Switch) -> Prefs {
        let p = self.prefs;
        match w {
            Switch::NotifyOnFinish => Prefs { notify_on_finish: !p.notify_on_finish, ..p },
            Switch::NotifyOnlyFailure => Prefs {
                notify_only_on_failure: !p.notify_only_on_failure,
                ..p
            },
            Switch::AutoSummon => Prefs { auto_summon_on_finish: !p.auto_summon_on_finish, ..p },
            Switch::FocusAutohide => Prefs { focus_autohide: !p.focus_autohide, ..p },
            Switch::LaunchAtLogin => Prefs { launch_at_login: !p.launch_at_login, ..p },
            _ => Prefs { fx: p.fx.switched(w), ..p },
        }
    }

    fn flip(self, w: Switch) -> (r: Prefs)
        ensures
            r == self.flipped(w),
    {
        let p: Prefs = self.prefs;
        match w {
            Switch::NotifyOnFinish => Prefs { notify_on_finish: !p.notify_on_finish, ..p },
            Switch::NotifyOnlyFailure => Prefs {
                notify_only_on_failure: !p.notify_only_on_failure,
                ..p
            },
            Switch::AutoSummon => Prefs { auto_summon_on_finish: !p.auto_summon_on_finish, ..p },
            Switch::FocusAutohide => Prefs { focus_autohide: !p.focus_autohide, ..p },
            Switch::LaunchAtLogin => Prefs { launch_at_login: !p.launch_at_login, ..p },
            _ => Prefs { fx: p.fx.switch(w), ..p },
        }
    }

    /// A switch is flipped.
    #[verifier::opaque]
    pub open spec fn switched(self, w: Switch) -> Stage {
        Stage { prefs: self.flipped(w), ..self }
    }

    fn switch(self, w: Switch) -> (r: Stage)
        ensures
            r == self.switched(w),
    {
        proof {
            reveal(Stage::switched);
        }
        Stage { prefs: self.flip(w), ..self }
    }

    /// A theme is picked from the list, which closes.
    #[verifier::opaque]
    pub open spec fn theme_picked(self, i: usize, themes: usize) -> Stage {
        let closed = Panel { theme_dropdown_open: false, ..self.panel };
        if i < themes {
            (Stage { panel: Panel { theme_idx: i, ..closed }, ..self }).apply_theme()
        } else {
            Stage { panel: closed, ..self }
        }
    }

    fn pick_theme(self, i: usize, themes: usize) -> (r: Stage)
        ensures
            r == self.theme_picked(i, themes),
    {
        proof {
            reveal(Stage::theme_picked);
        }
        let closed: Panel = Panel { theme_dropdown_open: false, ..self.panel };
        if i < themes {
            (Stage { panel: Panel { theme_idx: i, ..closed }, ..self }).apply_theme()
        } else {
            Stage { panel: closed, ..self }
        }
    }

    /// A list scrolls by one row; `n` is how many entries it has.
    #[verifier::opaque]
    pub open spec fn list_scrolled(self, list: List, up: bool, n: usize) -> Stage {
        let top = match list {
            List::Themes => self.panel.theme_scroll_offset,
            List::Fonts => self.panel.font_scroll_offset,
            List::UiFonts => self.panel.ui_font_scroll_offset,
        };
        let next = if up {
            row_up(top as int)
        } else {
            row_down(top as int, n as int, list.rows() as int)
        };
        Stage {
            panel: match list {
                List::Themes => Panel { theme_scroll_offset: next as usize, ..self.panel },
                List::Fonts => Panel { font_scroll_offset: next as usize, ..self.panel },
                List::UiFonts => Panel { ui_font_scroll_offset: next as usize, ..self.panel },
            },
            ..self
        }
    }

    fn scroll_list(self, list: List, up: bool, n: usize) -> (r: Stage)
        ensures
            r == self.list_scrolled(list, up, n),
    {
        proof {
            reveal(Stage::list_scrolled);
        }
        let top: usize = match list {
            List::Themes => self.panel.theme_scroll_offset,
            List::Fonts => self.panel.font_scroll_offset,
            List::UiFonts => self.panel.ui_font_scroll_offset,
        };
        let rows: usize = match list {
            List::Themes => MAX_THEME_ROWS,
            List::Fonts => MAX_FONT_ROWS,
            List::UiFonts => MAX_UI_FONT_ROWS,
        };
        let next: usize = if up {
            scroll_up(top)
        } else {
            scroll_down(top, n, rows)
        };
        let panel: Panel = match list {
            List::Themes => Panel { theme_scroll_offset: next, ..self.panel },
            List::Fonts => Panel { font_scroll_offset: next, ..self.panel },
            List::UiFonts => Panel { ui_font_scroll_offset: next, ..self.panel },
        };
        Stage { panel, ..self }
    }

    /// The shortest command worth a notification changes.
    #[verifier::opaque]
    pub open spec fn notify_min_set(self, seconds: u64) -> Stage {
        Stage { prefs: Prefs { notify_min_seconds: seconds, ..self.prefs }, ..self }
    }

    fn set_notify_min(self, seconds: u64) -> (r: Stage)
        ensures
            r == self.notify_min_set(seconds),
    {
        proof {
            reveal(Stage::notify_min_set);
        }
        Stage { prefs: Prefs { notify_min_seconds: seconds, ..self.prefs }, ..self }
    }

    /// A page of the settings window shows; there are five.
    #[verifier::opaque]
    pub open spec fn page_shown(self, i: usize) -> Stage {
        (Stage {
            panel: Panel {
                settings_tab: if i < 4 {
                    i
                } else {
                    4
                },
                ..self.panel
            },
            ..self
        }).paint_settings()
    }

    fn show_page(self, i: usize) -> (r: Stage)
        ensures
            r == self.page_shown(i),
    {
        proof {
            reveal(Stage::page_shown);
        }
        let settings_tab: usize = if i < 4 {
            i
        } else {
            4
        };
        (Stage { panel: Panel { settings_tab, ..self.panel }, ..self }).paint_settings()
    }
}

/// The lists of the settings window.
#[derive(Debug, Clone, Copy, PartialEq, Eq, Structural)]
pub enum List {
    Themes,
    Fonts,
    UiFonts,
}

impl List {
    /// How many rows the list shows at once.
    pub open spec fn rows(self) -> usize {
        match self {
            List::Themes => MAX_THEME_ROWS,
            List::Fonts => MAX_FONT_ROWS,
            List::UiFonts => MAX_UI_FONT_ROWS,
        }
    }
}

impl FxToggles {
    /// One of the effects' switches is flipped.
    pub open spec fn switched(self, w: Switch) -> FxToggles {
        match w {
            Switch::Crt => FxToggles { crt_enabled: !self.crt_enabled, ..self },
            Switch::CrtRoll => FxToggles { crt_animate_roll: !self.crt_animate_roll, ..self },
            Switch::CrtFlicker => FxToggles { crt_flicker: !self.crt_flicker, ..self },
            Switch::CrtJitter => FxToggles { crt_jitter: !self.crt_jitter, ..self },
            Switch::CaretFlash => FxToggles {
                caret_flash_enabled: !self.caret_flash_enabled,
                ..self
            },
            Switch::CaretGlow => FxToggles {
                caret_glow_enabled: !self.caret_glow_enabled,
                ..self
            },
            _ => self,
        }
    }

    fn switch(self, w: Switch) -> (r: FxToggles)
        ensures
            r == self.switched(w),
    {
        match w {
            Switch::Crt => FxToggles { crt_enabled: !self.crt_enabled, ..self },
            Switch::CrtRoll => FxToggles { crt_animate_roll: !self.crt_animate_roll, ..self },
            Switch::CrtFlicker => FxToggles { crt_flicker: !self.crt_flicker, ..self },
            Switch::CrtJitter => FxToggles { crt_jitter: !self.crt_jitter, ..self },
            Switch::CaretFlash => FxToggles {
                caret_flash_enabled: !self.caret_flash_enabled,
                ..self
            },
            Switch::CaretGlow => FxToggles {
                caret_glow_enabled: !self.caret_glow_enabled,
                ..self
            },
            _ => self,
        }
    }
}

/// What stands next to the current choices.
pub struct Choices {
    pub effect: SummonEffect,
    pub mode: WindowMode,
    pub lines: usize,
    pub seconds: u64,
}

impl Prefs {
    /// `c` holds the choices next to the current ones, forward or back.
    pub open spec fn next_choices(self, forward: bool, c: Choices) -> bool {
        &&& c.effect.rank() == (self.summon_effect.rank() + if forward {
            1int
        } else {
            4
        }) % 5
        &&& c.mode != self.window_mode
        &&& is_cycled(scrollback_steps(), self.scrollback_lines as int, forward, c.lines as int)
        &&& is_cycled(notify_steps(), self.notify_min_seconds as int, forward, c.seconds as int)
    }

    fn neighbours(self, forward: bool) -> (c: Choices)
        ensures
            self.next_choices(forward, c),
    {
        Choices {
            effect: self.summon_effect.cycle(forward),
            mode: self.window_mode.cycle(forward),
            lines: cycle_scrollback(self.scrollback_lines, forward),
            seconds: cycle_notify_min(self.notify_min_seconds, forward),
        }
    }
}

impl SettingsAction {
    /// The way in which a row of choices is gone through.
    pub open spec fn forward(self) -> bool {
        match self {
            SettingsAction::Summon(f)
            | SettingsAction::Mode(f)
            | SettingsAction::Scrollback(f)
            | SettingsAction::NotifyMin(f) => f,
            _ => true,
        }
    }

    fn goes_forward(self) -> (r: bool)
        ensures
            r == self.forward(),
    {
        match self {
            SettingsAction::Summon(f)
            | SettingsAction::Mode(f)
            | SettingsAction::Scrollback(f)
            | SettingsAction::NotifyMin(f) => f,
            _ => true,
        }
    }
}

/// How long the lists of the settings window are.
#[derive(Debug, Clone, Copy)]
pub struct Lengths {
    pub themes: usize,
    pub fonts: usize,
    pub ui_fonts: usize,
}

impl Stage {
    /// What an action of the settings window does to the scalar state, of the
    /// actions that change nothing else.
    pub open spec fn panel_set(self, a: SettingsAction, c: Choices, n: Lengths, now: u64) -> Stage {
        match a {
            SettingsAction::Drag(s) => self.drag_begun(s),
            SettingsAction::Flip(w) => self.switched(w),
            SettingsAction::SetTheme(i) => self.theme_picked(i, n.themes),
            SettingsAction::ToggleThemes => self.themes_toggled(n.themes),
            SettingsAction::ThemeRow(up) => self.list_scrolled(List::Themes, up, n.themes),
            SettingsAction::FontRow(up) => self.list_scrolled(List::Fonts, up, n.fonts),
            SettingsAction::UiFontRow(up) => self.list_scrolled(List::UiFonts, up, n.ui_fonts),
            SettingsAction::Summon(_) => self.effect_chosen(c.effect),
            SettingsAction::Mode(_) => self.mode_chosen(c.mode, now),
            SettingsAction::TabBar => self.bar_moved(!self.prefs.tab_bar_bottom),
            SettingsAction::Scrollback(_) => self.scrollback_limited(c.lines),
            SettingsAction::NotifyMin(_) => self.notify_min_set(c.seconds),
            _ => self,
        }
    }

    fn set_panel(self, a: SettingsAction, c: &Choices, n: Lengths, now: u64) -> (r: Stage)
        ensures
            r == self.panel_set(a, *c, n, now),
    {
        match a {
            SettingsAction::Drag(s) => self.begin_drag(s),
            SettingsAction::Flip(w) => self.switch(w),
            SettingsAction::SetTheme(i) => self.pick_theme(i, n.themes),
            SettingsAction::ToggleThemes => self.toggle_themes(n.themes),
            SettingsAction::ThemeRow(up) => self.scroll_list(List::Themes, up, n.themes),
            SettingsAction::FontRow(up) => self.scroll_list(List::Fonts, up, n.fonts),
            SettingsAction::UiFontRow(up) => self.scroll_list(List::UiFonts, up, n.ui_fonts),
            SettingsAction::Summon(_) => self.set_summon_effect(c.effect),
            SettingsAction::Mode(_) => self.set_window_mode(c.mode, now),
            SettingsAction::TabBar => self.set_tab_bar_bottom(!self.prefs.tab_bar_bottom),
            SettingsAction::Scrollback(_) => self.set_scrollback_lines(c.lines),
            SettingsAction::NotifyMin(_) => self.set_notify_min(c.seconds),
            _ => self,
        }
    }

    /// What an action of the settings window asks for.
    pub open spec fn panel_ask(self, a: SettingsAction) -> AskView {
        match a {
            SettingsAction::Drag(s) => if self.slides(s) {
                AskView::Slide(s)
            } else {
                AskView::Nothing
            },
            SettingsAction::Flip(Switch::LaunchAtLogin) => AskView::SetAutostart(
                !self.prefs.launch_at_login,
            ),
            SettingsAction::FontMinus => AskView::FontDown,
            SettingsAction::FontPlus => AskView::FontUp,
            SettingsAction::FontReset => AskView::FontReset,
            SettingsAction::UiFontMinus => AskView::UiFontDown,
            SettingsAction::UiFontPlus => AskView::UiFontUp,
            SettingsAction::UiFontReset => AskView::UiFontReset,
            _ => AskView::Nothing,
        }
    }

    fn ask_panel(self, a: SettingsAction) -> (r: Ask)
        ensures
            r@ == self.panel_ask(a),
    {
        match a {
            SettingsAction::Drag(s) => if self.is_sliding(s) {
                Ask::Slide(s)
            } else {
                Ask::Nothing
            },
            SettingsAction::Flip(Switch::LaunchAtLogin) => Ask::SetAutostart(
                !self.prefs.launch_at_login,
            ),
            SettingsAction::FontMinus => Ask::FontDown,
            SettingsAction::FontPlus => Ask::FontUp,
            SettingsAction::FontReset => Ask::FontReset,
            SettingsAction::UiFontMinus => Ask::UiFontDown,
            SettingsAction::UiFontPlus => Ask::UiFontUp,
            SettingsAction::UiFontReset => Ask::UiFontReset,
            _ => Ask::Nothing,
        }
    }
}

proof fn lemma_lists_keep(s: Stage, a: SettingsAction, list: List, up: bool, n: usize)
    ensures
        s.narrows_to(s.list_left(a)),
        s.narrows_to(s.list_scrolled(list, up, n)),
{
    assert(s.narrows_to(s.list_left(a))) by {
        reveal(Stage::list_left);
        lemma_keep(s, s.list_left(a));
    }
    assert(s.narrows_to(s.list_scrolled(list, up, n))) by {
        reveal(Stage::list_scrolled);
        lemma_keep(s, s.list_scrolled(list, up, n));
    }
}

proof fn lemma_drag_keep(s: Stage, x: Slider)
    ensures
        s.narrows_to(s.drag_begun(x)),
{
    reveal(Stage::drag_begun);
    assert(s.held(x).tab_drag == s.pointer.tab_drag);
    lemma_keep(s, s.drag_begun(x));
}

proof fn lemma_switch_keep(s: Stage, w: Switch, i: usize, themes: usize)
    ensures
        s.narrows_to(s.switched(w)),
        s.narrows_to(s.theme_picked(i, themes)),
        s.narrows_to(s.themes_toggled(themes)),
{
    assert(s.narrows_to(s.switched(w))) by {
        reveal(Stage::switched);
        lemma_keep(s, s.switched(w));
    }
    assert(s.narrows_to(s.theme_picked(i, themes))) by {
        reveal(Stage::theme_picked);
        lemma_keep(s, s.theme_picked(i, themes));
    }
    assert(s.narrows_to(s.themes_toggled(themes))) by {
        reveal(Stage::themes_toggled);
        lemma_keep(s, s.themes_toggled(themes));
    }
}

proof fn lemma_small_keep(s: Stage, seconds: u64, i: usize)
    ensures
        s.narrows_to(s.notify_min_set(seconds)),
        s.narrows_to(s.page_shown(i)),
        s.narrows_to(s.persist().paint_all()),
        s.narrows_to(s.persist().paint_settings()),
{
    assert(s.narrows_to(s.notify_min_set(seconds))) by {
        reveal(Stage::notify_min_set);
        lemma_keep(s, s.notify_min_set(seconds));
    }
    assert(s.narrows_to(s.page_shown(i))) by {
        reveal(Stage::page_shown);
        lemma_keep(s, s.page_shown(i));
    }
    lemma_keep(s, s.persist().paint_all());
    lemma_keep(s, s.persist().paint_settings());
}

proof fn lemma_panel_keep(s: Stage, a: SettingsAction, c: Choices, n: Lengths, now: u64)
    ensures
        s.narrows_to(s.panel_set(a, c, n, now)),
{
    lemma_setters_keep(s, c.effect, c.mode, !s.prefs.tab_bar_bottom, c.lines, now);
    match a {
        SettingsAction::Drag(x) => lemma_drag_keep(s, x),
        SettingsAction::Flip(w) => lemma_switch_keep(s, w, 0, 0),
        SettingsAction::SetTheme(i) => lemma_switch_keep(s, Switch::Crt, i, n.themes),
        SettingsAction::ToggleThemes => lemma_switch_keep(s, Switch::Crt, 0, n.themes),
        SettingsAction::ThemeRow(up) => lemma_lists_keep(s, a, List::Themes, up, n.themes),
        SettingsAction::FontRow(up) => lemma_lists_keep(s, a, List::Fonts, up, n.fonts),
        SettingsAction::UiFontRow(up) => lemma_lists_keep(s, a, List::UiFonts, up, n.ui_fonts),
        SettingsAction::NotifyMin(_) => lemma_small_keep(s, c.seconds, 0),
        _ => {},
    }
}

impl AppView {
    /// The lengths of the lists.
    pub open spec fn lengths(self, themes: usize) -> Lengths {
        Lengths {
            themes,
            fonts: self.text.font_families.len() as usize,
            ui_fonts: self.text.ui_font_families.len() as usize,
        }
    }

    /// Another shell is chosen for new tabs.
    pub open spec fn shell_cycled(self, offered: Seq<Seq<char>>, forward: bool) -> AppView {
        AppView {
            text: TextPrefsView { shell: cycled(offered, self.text.shell, forward), ..self.text },
            st: self.st.persist().paint_settings(),
            ..self
        }
    }

    /// An action of the settings window is carried out, before it is written
    /// down and shown. `c` holds the choices next to the current ones.
    #[verifier::opaque]
    pub open spec fn panel_acted(
        self,
        a: SettingsAction,
        c: Choices,
        themes: usize,
        offered: Seq<Seq<char>>,
        env: Env,
    ) -> AppView {
        match a {
            SettingsAction::FontMinus
            | SettingsAction::FontPlus
            | SettingsAction::FontReset => self.font_sized(env.now),
            SettingsAction::UiFontMinus
            | SettingsAction::UiFontPlus
            | SettingsAction::UiFontReset => AppView { st: self.st.ui_fonts_changed(), ..self },
            SettingsAction::SetFont(i) => if i < self.text.font_families.len() {
                self.font_chosen(self.text.font_families[i as int], env)
            } else {
                self
            },
            SettingsAction::SetUiFont(i) => if i == 0 {
                self.ui_font_chosen(seq![])
            } else if i < self.text.ui_font_families.len() {
                self.ui_font_chosen(self.text.ui_font_families[i as int])
            } else {
                self
            },
            SettingsAction::Shell(f) => self.shell_cycled(offered, f),
            _ => AppView {
                st: self.st.panel_set(a, c, self.lengths(themes), env.now),
                ..self
            },
        }
    }

    /// An action of the settings window: changing the page is not written
    /// down, everything else is, and every window shows it.
    pub open spec fn settings_acted(
        self,
        a: SettingsAction,
        c: Choices,
        themes: usize,
        offered: Seq<Seq<char>>,
        env: Env,
    ) -> AppView {
        let v = AppView { st: self.st.list_left(a), ..self };
        match a {
            SettingsAction::Page(i) => AppView { st: v.st.page_shown(i), ..v },
            _ => {
                let w = v.panel_acted(a, c, themes, offered, env);
                AppView { st: w.st.persist().paint_all(), ..w }
            },
        }
    }
}

impl App {
    fn choose_font(&mut self, i: usize, env: &Env)
        requires
            old(self)@.wf(),
            env.now <= LAST_INSTANT,
        ensures
            final(self)@ == if i < old(self)@.text.font_families.len() {
                old(self)@.font_chosen(old(self)@.text.font_families[i as int], *env)
            } else {
                old(self)@
            },
            final(self)@.wf(),
    {
        if i < self.text.font_families.len() {
            assert(self@.text.font_families[i as int] == self.text.font_families@[i as int]@);
            let name: String = self.text.font_families[i].clone();
            self.set_font_family(name, env);
        }
    }

    fn choose_ui_font(&mut self, i: usize)
        requires
            old(self)@.wf(),
        ensures
            final(self)@ == if i == 0 {
                old(self)@.ui_font_chosen(seq![])
            } else if i < old(self)@.text.ui_font_families.len() {
                old(self)@.ui_font_chosen(old(self)@.text.ui_font_families[i as int])
            } else {
                old(self)@
            },
            final(self)@.wf(),
    {
        if i == 0 {
            let none: String = String::new();
            assert(none@ =~= Seq::<char>::empty());
            self.set_ui_font_family(none);
        } else if i < self.text.ui_font_families.len() {
            assert(self@.text.ui_font_families[i as int] == self.text.ui_font_families@[i as int]@);
            let name: String = self.text.ui_font_families[i].clone();
            self.set_ui_font_family(name);
        }
    }

    /// Chooses the next or previous shell for new tabs; `offered` are the
    /// shells that the system has.
    pub fn cycle_shell(&mut self, offered: &Vec<String>, forward: bool)
        requires
            old(self)@.wf(),
            offered@.len() < usize::MAX,
        ensures
            final(self)@ == old(self)@.shell_cycled(texts(offered@), forward),
            final(self)@.wf(),
    {
        proof {
            lemma_small_keep(self@.st, 0, 0);
            lemma_wf_narrow(self@, self@.st.persist().paint_settings());
        }
        let next: String = cycle_shell(offered, self.text.shell.as_str(), forward);
        self.text.shell = next;
        self.st = self.st.persist().paint_settings();
    }

    /// The shell that new tabs start, where one is chosen.
    pub fn opt_shell(&self) -> (r: Option<String>)
        ensures
            self@.text.shell.len() == 0 ==> r is None,
            self@.text.shell.len() > 0 ==> (r matches Some(s) && s@ == self@.text.shell),
    {
        if self.text.shell.as_str().is_empty() {
            None
        } else {
            Some(self.text.shell.clone())
        }
    }

    fn act_panel(
        &mut self,
        a: SettingsAction,
        c: &Choices,
        themes: usize,
        offered: &Vec<String>,
        env: &Env,
    )
        requires
            old(self)@.wf(),
            offered@.len() < usize::MAX,
            env.now <= LAST_INSTANT,
        ensures
            final(self)@ == old(self)@.panel_acted(a, *c, themes, texts(offered@), *env),
            final(self)@.wf(),
    {
        proof {
            reveal(AppView::panel_acted);
        }
        match a {
            SettingsAction::FontMinus | SettingsAction::FontPlus | SettingsAction::FontReset => {
                self.font_sized(env.now);
            },
            SettingsAction::UiFontMinus
            | SettingsAction::UiFontPlus
            | SettingsAction::UiFontReset => {
                self.ui_font_sized();
            },
            SettingsAction::SetFont(i) => {
                self.choose_font(i, env);
            },
            SettingsAction::SetUiFont(i) => {
                self.choose_ui_font(i);
            },
            SettingsAction::Shell(f) => {
                self.cycle_shell(offered, f);
            },
            _ => {
                self.act_panel_scalar(a, c, themes, env.now);
            },
        }
    }

    fn act_panel_scalar(&mut self, a: SettingsAction, c: &Choices, themes: usize, now: u64)
        requires
            old(self)@.wf(),
        ensures
            final(self)@ == (AppView {
                st: old(self)@.st.panel_set(a, *c, old(self)@.lengths(themes), now),
                ..old(self)@
            }),
            final(self)@.wf(),
    {
        let n: Lengths = Lengths {
            themes,
            fonts: self.text.font_families.len(),
            ui_fonts: self.text.ui_font_families.len(),
        };
        assert(n == self@.lengths(themes));
        proof {
            lemma_panel_keep(self@.st, a, *c, n, now);
            lemma_wf_narrow(self@, self@.st.panel_set(a, *c, n, now));
        }
        self.st = self.st.set_panel(a, c, n, now);
    }

    /// Carries out an action of the settings window. There are `themes`
    /// themes, and the system has the shells `offered`.
    pub fn handle_settings_action(
        &mut self,
        a: SettingsAction,
        themes: usize,
        offered: &Vec<String>,
        env: &Env,
    ) -> (r: Ask)
        requires
            old(self)@.wf(),
            offered@.len() < usize::MAX,
            env.now <= LAST_INSTANT,
        ensures
            exists|c: Choices|
                #[trigger] old(self)@.st.prefs.next_choices(a.forward(), c) && final(self)@
                    == old(self)@.settings_acted(a, c, themes, texts(offered@), *env),
            r@ == old(self)@.st.panel_ask(a),
            final(self)@.wf(),
    {
        let c: Choices = self.st.prefs.neighbours(a.goes_forward());
        let ask: Ask = self.st.ask_panel(a);
        let ghost v = self@;
        proof {
            lemma_lists_keep(self@.st, a, List::Fonts, true, 0);
            lemma_wf_narrow(self@, self@.st.list_left(a));
        }
        self.st = self.st.leave_list(a);
        match a {
            SettingsAction::Page(i) => {
                proof {
                    lemma_small_keep(self@.st, 0, i);
                    lemma_wf_narrow(self@, self@.st.page_shown(i));
                }
                self.st = self.st.show_page(i);
            },
            _ => {
                self.act_panel(a, &c, themes, offered, env);
                proof {
                    lemma_small_keep(self@.st, 0, 0);
                    lemma_wf_narrow(self@, self@.st.persist().paint_all());
                }
                self.st = self.st.persist().paint_all();
            },
        }
        proof {
            assert(self@ == v.settings_acted(a, c, themes, texts(offered@), *env));
            assert(v.st.prefs.next_choices(a.forward(), c));
        }
        ask
    }
}

impl Pointer {
    /// The sliders that are held and take their values from the pointer.
    pub open spec fn sliders(self) -> Seq<Slider> {
        (if self.dragging_slider {
            seq![Slider::Opacity]
        } else {
            seq![]
        }) + (if self.dragging_radius {
            seq![Slider::Radius]
        } else {
            seq![]
        }) + (if self.dragging_dropdown {
            seq![Slider::DropdownHeight]
        } else {
            seq![]
        }) + (if self.dragging_dropdown_width {
            seq![Slider::DropdownWidth]
        } else {
            seq![]
        }) + (match self.active_fx_drag {
            Some(f) => seq![Slider::Fx(f)],
            None => seq![],
        })
    }

    /// The sliders that are held and take their values from the pointer.
    pub fn held_sliders(self) -> (r: Vec<Slider>)
        ensures
            r@ == self.sliders(),
    {
        let mut held: Vec<Slider> = Vec::new();
        if self.dragging_slider {
            held.push(Slider::Opacity);
        }
        if self.dragging_radius {
            held.push(Slider::Radius);
        }
        if self.dragging_dropdown {
            held.push(Slider::DropdownHeight);
        }
        if self.dragging_dropdown_width {
            held.push(Slider::DropdownWidth);
        }
        if let Some(f) = self.active_fx_drag {
            held.push(Slider::Fx(f));
        }
        assert(held@ =~= self.sliders());
        held
    }
}

/// What the window system tells about the settings window.
#[derive(Debug, Clone, Copy)]
pub enum PanelEvent {
    CloseRequested,
    /// Its size or its display scale changed.
    Reshaped,
    /// Escape was pressed; `true` where it was merely held already.
    Escape(bool),
    Focused,
    Unfocused,
    /// The pointer moved; `true` once the window has a surface.
    Moved(bool),
    /// The left button was released.
    Released,
}

impl Stage {
    /// A slider is held.
    pub open spec fn dragging(self) -> bool {
        ||| self.pointer.dragging_slider
        ||| self.pointer.dragging_radius
        ||| self.pointer.dragging_dropdown
        ||| self.pointer.dragging_dropdown_width
        ||| self.pointer.active_fx_drag is Some
    }

    fn is_dragging(self) -> (r: bool)
        ensures
            r == self.dragging(),
    {
        self.pointer.dragging_slider || self.pointer.dragging_radius
            || self.pointer.dragging_dropdown || self.pointer.dragging_dropdown_width
            || self.pointer.active_fx_drag.is_some()
    }

    /// No slider is held any more.
    pub open spec fn spec_undragged(self) -> Stage {
        Stage {
            pointer: Pointer {
                dragging_slider: false,
                dragging_radius: false,
                dragging_dropdown: false,
                dragging_dropdown_width: false,
                active_fx_drag: None,
                ..self.pointer
            },
            ..self
        }
    }

    /// No slider is held any more.
    #[verifier::when_used_as_spec(spec_undragged)]
    pub fn undragged(self) -> (r: Stage)
        ensures
            r == self.spec_undragged(),
    {
        Stage {
            pointer: Pointer {
                dragging_slider: false,
                dragging_radius: false,
                dragging_dropdown: false,
                dragging_dropdown_width: false,
                active_fx_drag: None,
                ..self.pointer
            },
            ..self
        }
    }

    /// The pointer moved in the settings window: a held slider takes its
    /// value, and every window shows it.
    #[verifier::opaque]
    pub open spec fn panel_moved(self, surface: bool) -> Stage {
        if !self.dragging() {
            self
        } else if self.pointer.dragging_slider && surface {
            self.apply_theme().paint_all()
        } else {
            self.paint_all()
        }
    }

    fn move_panel(self, surface: bool) -> (r: Stage)
        ensures
            r == self.panel_moved(surface),
    {
        proof {
            reveal(Stage::panel_moved);
        }
        if !self.is_dragging() {
            self
        } else if self.pointer.dragging_slider && surface {
            self.apply_theme().paint_all()
        } else {
            self.paint_all()
        }
    }

    /// A slider was let go: its value is written down, and the docked window
    /// takes the size that was set.
    #[verifier::opaque]
    pub open spec fn panel_released(self) -> Stage {
        let s = if self.dragging() {
            self.persist()
        } else {
            self
        };
        (if self.pointer.dragging_dropdown || self.pointer.dragging_dropdown_width {
            s.redocked()
        } else {
            s
        }).undragged()
    }

    fn release_panel(self) -> (r: Stage)
        ensures
            r == self.panel_released(),
    {
        proof {
            reveal(Stage::panel_released);
        }
        let s: Stage = if self.is_dragging() {
            self.persist()
        } else {
            self
        };
        if self.pointer.dragging_dropdown || self.pointer.dragging_dropdown_width {
            s.redock_if_dropdown().undragged()
        } else {
            s.undragged()
        }
    }

    /// The settings window has gained the focus: the user is still here.
    #[verifier::opaque]
    pub open spec fn panel_focused(self) -> Stage {
        match self.presence.settings_window {
            Some(w) => (Stage {
                presence: Presence {
                    last_focused_window: Some(w),
                    switching_to_settings: true,
                    ..self.presence
                },
                ..self.stay()
            }).paint_settings(),
            None => self,
        }
    }

    fn focus_panel(self) -> (r: Stage)
        ensures
            r == self.panel_focused(),
    {
        proof {
            reveal(Stage::panel_focused);
        }
        match self.presence.settings_window {
            Some(w) => (Stage {
                presence: Presence {
                    last_focused_window: Some(w),
                    switching_to_settings: true,
                    ..self.presence
                },
                ..self.stay()
            }).paint_settings(),
            None => self,
        }
    }

    /// The settings window has lost the focus, perhaps to another application.
    #[verifier::opaque]
    pub open spec fn panel_unfocused(self, now: u64) -> Stage {
        let s = self.undragged();
        Stage {
            presence: Presence {
                switching_to_settings: false,
                last_focused_window: if self.presence.last_focused_window
                    == self.presence.settings_window {
                    None
                } else {
                    self.presence.last_focused_window
                },
                ..self.presence
            },
            timers: Timers {
                pending_autohide_at: if self.leave_hides() {
                    Some((now + AUTOHIDE_GRACE) as u64)
                } else {
                    self.timers.pending_autohide_at
                },
                ..self.timers
            },
            ..s
        }
    }

    fn unfocus_panel(self, now: u64) -> (r: Stage)
        requires
            now <= LAST_INSTANT,
        ensures
            r == self.panel_unfocused(now),
    {
        proof {
            reveal(Stage::panel_unfocused);
        }
        let there: bool = match (
            self.presence.last_focused_window,
            self.presence.settings_window,
        ) {
            (Some(a), Some(b)) => a == b,
            (None, None) => true,
            _ => false,
        };
        let last_focused_window: Option<u64> = if there {
            None
        } else {
            self.presence.last_focused_window
        };
        let hides: bool = self.prefs.focus_autohide && self.presence.visible
            && self.timers.summon_anim.is_none() && !self.timers.summon_pending;
        let pending_autohide_at: Option<u64> = if hides {
            Some(now + AUTOHIDE_GRACE)
        } else {
            self.timers.pending_autohide_at
        };
        let s: Stage = self.undragged();
        Stage {
            presence: Presence {
                switching_to_settings: false,
                last_focused_window,
                ..self.presence
            },
            timers: Timers { pending_autohide_at, ..self.timers },
            ..s
        }
    }

    /// The settings window is closed by the user.
    #[verifier::opaque]
    pub open spec fn panel_dismissed(self) -> Stage {
        self.settings_closed().paint_main()
    }

    fn dismiss_panel(self) -> (r: Stage)
        ensures
            r == self.panel_dismissed(),
    {
        proof {
            reveal(Stage::panel_dismissed);
        }
        self.close_settings_window().paint_main()
    }

    /// The scalar state after an event of the settings window.
    pub open spec fn panel_event(self, e: PanelEvent, now: u64) -> Stage {
        match e {
            PanelEvent::CloseRequested => self.panel_dismissed(),
            PanelEvent::Reshaped => self.paint_settings(),
            PanelEvent::Escape(held) => if held {
                self
            } else {
                self.panel_dismissed()
            },
            PanelEvent::Focused => self.panel_focused(),
            PanelEvent::Unfocused => self.panel_unfocused(now),
            PanelEvent::Moved(surface) => self.panel_moved(surface),
            PanelEvent::Released => self.panel_released(),
        }
    }

    fn on_panel(self, e: PanelEvent, now: u64) -> (r: Stage)
        requires
            now <= LAST_INSTANT,
        ensures
            r == self.panel_event(e, now),
    {
        match e {
            PanelEvent::CloseRequested => self.dismiss_panel(),
            PanelEvent::Reshaped => self.paint_settings(),
            PanelEvent::Escape(held) => if held {
                self
            } else {
                self.dismiss_panel()
            },
            PanelEvent::Focused => self.focus_panel(),
            PanelEvent::Unfocused => self.unfocus_panel(now),
            PanelEvent::Moved(surface) => self.move_panel(surface),
            PanelEvent::Released => self.release_panel(),
        }
    }

    /// The wheel turned over the settings window: on the last page it scrolls
    /// the page, elsewhere the list under the pointer.
    #[verifier::opaque]
    pub open spec fn panel_wheeled(self, lines: i32, over: Option<List>, n: Lengths) -> Stage {
        if self.panel.settings_tab == 4 {
            self.paint_settings()
        } else if lines == 0 || (n.fonts == 0 && n.ui_fonts == 0) {
            self
        } else {
            match over {
                Some(List::Fonts) => self.list_scrolled(
                    List::Fonts,
                    lines > 0,
                    n.fonts,
                ).paint_settings(),
                Some(List::UiFonts) => self.list_scrolled(
                    List::UiFonts,
                    lines > 0,
                    n.ui_fonts,
                ).paint_settings(),
                _ => self,
            }
        }
    }

    fn wheel_panel(self, lines: i32, over: Option<List>, n: Lengths) -> (r: Stage)
        ensures
            r == self.panel_wheeled(lines, over, n),
    {
        proof {
            reveal(Stage::panel_wheeled);
        }
        if self.panel.settings_tab == 4 {
            return self.paint_settings();
        }
        if lines == 0 || (n.fonts == 0 && n.ui_fonts == 0) {
            return self;
        }
        match over {
            Some(List::Fonts) => self.scroll_list(
                List::Fonts,
                lines > 0,
                n.fonts,
            ).paint_settings(),
            Some(List::UiFonts) => self.scroll_list(
                List::UiFonts,
                lines > 0,
                n.ui_fonts,
            ).paint_settings(),
            _ => self,
        }
    }
}

proof fn lemma_panel_event_keep(s: Stage, e: PanelEvent, now: u64)
    ensures
        s.narrows_to(s.panel_event(e, now)),
{
    match e {
        PanelEvent::CloseRequested | PanelEvent::Escape(_) => {
            lemma_dismissed_keep(s);
            lemma_keep(s, s);
        },
        PanelEvent::Reshaped => {
            lemma_keep(s, s.paint_settings());
        },
        PanelEvent::Focused => {
            reveal(Stage::panel_focused);
            lemma_keep(s, s.panel_focused());
        },
        PanelEvent::Unfocused => {
            reveal(Stage::panel_unfocused);
            lemma_keep(s, s.panel_unfocused(now));
        },
        PanelEvent::Moved(surface) => {
            reveal(Stage::panel_moved);
            lemma_keep(s, s.panel_moved(surface));
        },
        PanelEvent::Released => {
            lemma_released_keep(s);
        },
    }
}

proof fn lemma_dismissed_keep(s: Stage)
    ensures
        s.narrows_to(s.panel_dismissed()),
{
    reveal(Stage::panel_dismissed);
    lemma_keep(s, s.settings_closed().paint_main());
}

proof fn lemma_undragged_keep(s: Stage)
    ensures
        s.narrows_to(s.undragged()),
{
    lemma_keep(s, s.undragged());
}

proof fn lemma_released_keep(s: Stage)
    ensures
        s.narrows_to(s.panel_released()),
{
    reveal(Stage::panel_released);
    let a = if s.dragging() {
        s.persist()
    } else {
        s
    };
    assert(s.narrows_to(a)) by {
        lemma_keep(s, a);
    }
    lemma_setters_keep(a, SummonEffect::Plain, WindowMode::Center, false, 0, 0);
    let b = if s.pointer.dragging_dropdown || s.pointer.dragging_dropdown_width {
        a.redocked()
    } else {
        a
    };
    lemma_narrow_trans(s, a, b);
    lemma_undragged_keep(b);
    lemma_narrow_trans(s, b, b.undragged());
}

proof fn lemma_wheeled_keep(s: Stage, lines: i32, over: Option<List>, n: Lengths)
    ensures
        s.narrows_to(s.panel_wheeled(lines, over, n)),
{
    reveal(Stage::panel_wheeled);
    let f = s.list_scrolled(List::Fonts, lines > 0, n.fonts);
    let u = s.list_scrolled(List::UiFonts, lines > 0, n.ui_fonts);
    lemma_lists_keep(s, SettingsAction::Nothing, List::Fonts, lines > 0, n.fonts);
    lemma_lists_keep(s, SettingsAction::Nothing, List::UiFonts, lines > 0, n.ui_fonts);
    lemma_keep(f, f.paint_settings());
    lemma_keep(u, u.paint_settings());
    lemma_narrow_trans(s, f, f.paint_settings());
    lemma_narrow_trans(s, u, u.paint_settings());
    lemma_keep(s, s.paint_settings());
    lemma_keep(s, s);
}

impl App {
    /// Handles an event of the settings window. Tells whether the sliders that
    /// are held take their values from the pointer.
    pub fn settings_window_event(&mut self, e: PanelEvent, now: u64) -> (r: bool)
        requires
            old(self)@.wf(),
            now <= LAST_INSTANT,
        ensures
            final(self)@ == (AppView { st: old(self)@.st.panel_event(e, now), ..old(self)@ }),
            r == (e matches PanelEvent::Moved(surface) && surface && old(self)@.st.dragging()),
            final(self)@.wf(),
    {
        proof {
            lemma_panel_event_keep(self@.st, e, now);
            lemma_wf_narrow(self@, self@.st.panel_event(e, now));
        }
        let slides: bool = match e {
            PanelEvent::Moved(surface) => surface && self.st.is_dragging(),
            _ => false,
        };
        self.st = self.st.on_panel(e, now);
        slides
    }

    /// The wheel turned by `lines` over the settings window, `over` one of its
    /// font lists. Tells whether the page itself scrolls.
    pub fn settings_wheel(&mut self, lines: i32, over: Option<List>, themes: usize) -> (r: bool)
        requires
            old(self)@.wf(),
        ensures
            final(self)@ == (AppView {
                st: old(self)@.st.panel_wheeled(lines, over, old(self)@.lengths(themes)),
                ..old(self)@
            }),
            r == (old(self)@.st.panel.settings_tab == 4),
            final(self)@.wf(),
    {
        let n: Lengths = Lengths {
            themes,
            fonts: self.text.font_families.len(),
            ui_fonts: self.text.ui_font_families.len(),
        };
        assert(n == self@.lengths(themes));
        proof {
            lemma_wheeled_keep(self@.st, lines, over, n);
            lemma_wf_narrow(self@, self@.st.panel_wheeled(lines, over, n));
        }
        let page: bool = self.st.panel.settings_tab == 4;
        self.st = self.st.wheel_panel(lines, over, n);
        page
    }
}

/// A slider whose release was never seen does not follow the pointer when the
/// focus comes back.
pub proof fn law_unfocused_holds_no_slider(s: Stage, now: u64)
    ensures
        !s.panel_unfocused(now).dragging(),
        !s.panel_released().dragging(),
{
    reveal(Stage::panel_unfocused);
    reveal(Stage::panel_released);
    reveal(Stage::redocked);
}

/// A drag is written down when the slider is let go, not at every motion.
pub proof fn law_drag_persists_on_release(s: Stage, surface: bool)
    requires
        s.dragging(),
        !s.panel.reloading,
    ensures
        s.panel_moved(surface).due.persist == s.due.persist,
        s.panel_released().due.persist,
{
    reveal(Stage::panel_moved);
    reveal(Stage::panel_released);
    reveal(Stage::redocked);
}

/// Whoever has not switched auto-hide on keeps the main window when the
/// settings window loses the focus, and so does one that is hidden or still
/// appearing.
pub proof fn law_settings_leaving_hides_only_where_wanted(s: Stage, now: u64)
    requires
        now <= LAST_INSTANT,
    ensures
        ({
            let r = s.panel_event(PanelEvent::Unfocused, now);
            let settled = s.timers.summon_anim is None && !s.timers.summon_pending;
            &&& !s.prefs.focus_autohide || !s.presence.visible || !settled
                ==> r.timers.pending_autohide_at == s.timers.pending_autohide_at
            &&& s.prefs.focus_autohide && s.presence.visible && settled
                ==> r.timers.pending_autohide_at == Some((now + 100_000_000) as u64)
        }),
{
    reveal(Stage::panel_unfocused);
}

/// A settings window that gained the focus is the one last focused and keeps
/// the main window; one that lost it is no longer.
pub proof fn law_settings_focus_is_remembered(s: Stage, w: u64, now: u64)
    requires
        s.presence.settings_window == Some(w),
    ensures
        ({
            let r = s.panel_event(PanelEvent::Focused, now);
            &&& r.presence.last_focused_window == Some(w) && r.presence.switching_to_settings
            &&& r.timers.pending_autohide_at is None && r.due.paint_settings
            &&& r.presence.settings_window == Some(w) && r.presence.visible == s.presence.visible
        }),
        ({
            let r = s.panel_event(PanelEvent::Unfocused, now);
            &&& r.presence.last_focused_window != Some(w) && !r.presence.switching_to_settings
            &&& s.presence.last_focused_window != Some(w) ==> r.presence.last_focused_window
                == s.presence.last_focused_window
            &&& r.presence.settings_window == Some(w) && r.presence.visible == s.presence.visible
            &&& r.due == s.due && r.prefs == s.prefs
        }),
{
    reveal(Stage::panel_focused);
    reveal(Stage::panel_unfocused);
}

/// A request to close the settings and the Escape key close them; a held
/// Escape does nothing, and another shape only repaints them.
pub proof fn law_settings_dismissal(s: Stage, now: u64)
    ensures
        s.panel_event(PanelEvent::CloseRequested, now).presence.settings_window is None,
        s.panel_event(PanelEvent::CloseRequested, now).due.paint_main,
        !s.panel_event(PanelEvent::CloseRequested, now).presence.switching_to_settings,
        s.panel_event(PanelEvent::Escape(false), now) == s.panel_event(
            PanelEvent::CloseRequested,
            now,
        ),
        s.panel_event(PanelEvent::Escape(true), now) == s,
        s.panel_event(PanelEvent::Reshaped, now).due.paint_settings,
        s.panel_event(PanelEvent::Reshaped, now).presence == s.presence,
{
    reveal(Stage::panel_dismissed);
}

/// While a slider is held its moves paint every window, and one of the opacity
/// restyles what shows it; with none held a move does nothing.
pub proof fn law_slider_moves(s: Stage, surface: bool, now: u64)
    ensures
        ({
            let p = s.pointer;
            let r = s.panel_event(PanelEvent::Moved(surface), now);
            let held = p.dragging_slider || p.dragging_radius || p.dragging_dropdown
                || p.dragging_dropdown_width || p.active_fx_drag is Some;
            &&& held ==> r.due.paint_main && r.due.paint_detached && r.due.paint_settings
            &&& p.dragging_slider && surface ==> r.due.restyle
            &&& !p.dragging_slider || !surface ==> r.due.restyle == s.due.restyle
            &&& !held ==> r == s
            &&& r.pointer == s.pointer && r.prefs == s.prefs && r.panel == s.panel
        }),
{
    reveal(Stage::panel_moved);
}

/// Releasing a slider lets go of every one; a held one's value is written, and
/// one of the dropdown's size docks a shown dropdown window anew.
pub proof fn law_slider_release(s: Stage, now: u64)
    ensures
        ({
            let p = s.pointer;
            let r = s.panel_event(PanelEvent::Released, now);
            let sized = p.dragging_dropdown || p.dragging_dropdown_width;
            let held = p.dragging_slider || p.dragging_radius || sized || p.active_fx_drag is Some;
            &&& !r.pointer.dragging_slider && !r.pointer.dragging_radius
            &&& !r.pointer.dragging_dropdown && !r.pointer.dragging_dropdown_width
            &&& r.pointer.active_fx_drag is None
            &&& held && !s.panel.reloading ==> r.due.persist
            &&& !held ==> r.due == s.due
            &&& sized && s.presence.visible && s.prefs.window_mode == WindowMode::Dropdown
                && s.presence.main_window is Some ==> r.due.redock
            &&& !sized ==> r.due.redock == s.due.redock
            &&& r.prefs == s.prefs && r.presence == s.presence
        }),
{
    reveal(Stage::panel_released);
    reveal(Stage::redocked);
}

/// The sliders that a pointer holds are those it took hold of.
pub proof fn law_held_sliders(p: Pointer, f: crate::state::FxSlider)
    ensures
        p.sliders().contains(Slider::Opacity) == p.dragging_slider,
        p.sliders().contains(Slider::Radius) == p.dragging_radius,
        p.sliders().contains(Slider::DropdownHeight) == p.dragging_dropdown,
        p.sliders().contains(Slider::DropdownWidth) == p.dragging_dropdown_width,
        p.sliders().contains(Slider::Fx(f)) == (p.active_fx_drag == Some(f)),
{
    lemma_holds(p, Slider::Opacity);
    lemma_holds(p, Slider::Radius);
    lemma_holds(p, Slider::DropdownHeight);
    lemma_holds(p, Slider::DropdownWidth);
    lemma_holds(p, Slider::Fx(f));
}

/// A slider held if `on`: what it holds is `x` or nothing.
proof fn lemma_held_one(on: bool, x: Slider, y: Slider)
    ensures
        (if on {
            seq![x]
        } else {
            seq![]
        }).contains(y) == (on && x == y),
{
    if on {
        assert(seq![x][0] == x);
    }
}

proof fn lemma_holds(p: Pointer, x: Slider)
    ensures
        p.sliders().contains(x) == {
            ||| p.dragging_slider && x == Slider::Opacity
            ||| p.dragging_radius && x == Slider::Radius
            ||| p.dragging_dropdown && x == Slider::DropdownHeight
            ||| p.dragging_dropdown_width && x == Slider::DropdownWidth
            ||| p.active_fx_drag matches Some(f) && x == Slider::Fx(f)
        },
{
    let a: Seq<Slider> = if p.dragging_slider {
        seq![Slider::Opacity]
    } else {
        seq![]
    };
    let b: Seq<Slider> = if p.dragging_radius {
        seq![Slider::Radius]
    } else {
        seq![]
    };
    let c: Seq<Slider> = if p.dragging_dropdown {
        seq![Slider::DropdownHeight]
    } else {
        seq![]
    };
    let d: Seq<Slider> = if p.dragging_dropdown_width {
        seq![Slider::DropdownWidth]
    } else {
        seq![]
    };
    let e: Seq<Slider> = match p.active_fx_drag {
        Some(f) => seq![Slider::Fx(f)],
        None => seq![],
    };
    lemma_held_one(p.dragging_slider, Slider::Opacity, x);
    lemma_held_one(p.dragging_radius, Slider::Radius, x);
    lemma_held_one(p.dragging_dropdown, Slider::DropdownHeight, x);
    lemma_held_one(p.dragging_dropdown_width, Slider::DropdownWidth, x);
    if p.active_fx_drag is Some {
        lemma_held_one(true, Slider::Fx(p.active_fx_drag.unwrap()), x);
    }
    vstd::seq_lib::lemma_seq_concat_contains_all_elements(a, b, x);
    vstd::seq_lib::lemma_seq_concat_contains_all_elements(a + b, c, x);
    vstd::seq_lib::lemma_seq_concat_contains_all_elements(a + b + c, d, x);
    vstd::seq_lib::lemma_seq_concat_contains_all_elements(a + b + c + d, e, x);
}

/// Taking hold of a slider holds that one; the two of the dropdown's size only
/// where the window is a dropdown. The opacity's restyles at once.
pub proof fn law_slider_is_held(s: Stage, f: crate::state::FxSlider)
    ensures
        s.drag_begun(Slider::Opacity).pointer.dragging_slider,
        s.drag_begun(Slider::Opacity).due.restyle,
        s.drag_begun(Slider::Radius).pointer.dragging_radius,
        s.drag_begun(Slider::Radius).due == s.due,
        s.drag_begun(Slider::Fx(f)).pointer.active_fx_drag == Some(f),
        s.drag_begun(Slider::Fx(f)).due == s.due,
        s.prefs.window_mode == WindowMode::Dropdown ==> s.drag_begun(
            Slider::DropdownHeight,
        ).pointer.dragging_dropdown,
        s.prefs.window_mode == WindowMode::Dropdown ==> s.drag_begun(
            Slider::DropdownWidth,
        ).pointer.dragging_dropdown_width,
        s.prefs.window_mode == WindowMode::Center ==> s.drag_begun(Slider::DropdownHeight) == s
            && s.drag_begun(Slider::DropdownWidth) == s,
{
    reveal(Stage::drag_begun);
}

/// Taking hold of one slider takes hold of no other.
pub proof fn law_one_slider_is_held(s: Stage, w: Slider)
    ensures
        ({
            let p = s.pointer;
            let q = s.drag_begun(w).pointer;
            &&& w != Slider::Opacity ==> q.dragging_slider == p.dragging_slider
            &&& w != Slider::Radius ==> q.dragging_radius == p.dragging_radius
            &&& w != Slider::DropdownHeight ==> q.dragging_dropdown == p.dragging_dropdown
            &&& w != Slider::DropdownWidth ==> q.dragging_dropdown_width
                == p.dragging_dropdown_width
            &&& w !is Fx ==> q.active_fx_drag == p.active_fx_drag
        }),
{
    reveal(Stage::drag_begun);
}

/// A slider that is taken hold of is asked where it stands.
pub proof fn law_held_slider_is_asked(s: Stage, w: Slider)
    ensures
        w is Opacity || w is Radius || w is Fx ==> s.panel_ask(SettingsAction::Drag(w))
            == AskView::Slide(w),
        s.prefs.window_mode == WindowMode::Dropdown ==> s.panel_ask(SettingsAction::Drag(w))
            == AskView::Slide(w),
        s.prefs.window_mode == WindowMode::Center && (w is DropdownHeight || w is DropdownWidth)
            ==> s.panel_ask(SettingsAction::Drag(w)) == AskView::Nothing,
{
}

/// The settings' sliders and switches do what they are named for.
pub proof fn law_sliders_and_switches(s: Stage, w: Slider, x: Switch, c: Choices, n: Lengths, now: u64)
    ensures
        s.panel_set(SettingsAction::Drag(w), c, n, now) == s.drag_begun(w),
        s.panel_set(SettingsAction::Flip(x), c, n, now) == s.switched(x),
        s.panel_set(SettingsAction::Nothing, c, n, now) == s,
{
}

/// Flipping a switch flips its own setting.
pub proof fn law_switches_flip(s: Stage)
    ensures
        s.switched(Switch::NotifyOnFinish).prefs.notify_on_finish == !s.prefs.notify_on_finish,
        s.switched(Switch::NotifyOnlyFailure).prefs.notify_only_on_failure
            == !s.prefs.notify_only_on_failure,
        s.switched(Switch::AutoSummon).prefs.auto_summon_on_finish
            == !s.prefs.auto_summon_on_finish,
        s.switched(Switch::FocusAutohide).prefs.focus_autohide == !s.prefs.focus_autohide,
        s.switched(Switch::LaunchAtLogin).prefs.launch_at_login == !s.prefs.launch_at_login,
        s.switched(Switch::Crt).prefs.fx.crt_enabled == !s.prefs.fx.crt_enabled,
        s.switched(Switch::CrtRoll).prefs.fx.crt_animate_roll == !s.prefs.fx.crt_animate_roll,
        s.switched(Switch::CrtFlicker).prefs.fx.crt_flicker == !s.prefs.fx.crt_flicker,
        s.switched(Switch::CrtJitter).prefs.fx.crt_jitter == !s.prefs.fx.crt_jitter,
        s.switched(Switch::CaretFlash).prefs.fx.caret_flash_enabled
            == !s.prefs.fx.caret_flash_enabled,
        s.switched(Switch::CaretGlow).prefs.fx.caret_glow_enabled
            == !s.prefs.fx.caret_glow_enabled,
{
    reveal(Stage::switched);
}

/// A switch touches no other's setting.
pub proof fn law_switch_touches_its_own(s: Stage, w: Switch)
    ensures
        ({
            let p = s.prefs;
            let q = s.switched(w).prefs;
            &&& w != Switch::NotifyOnFinish ==> q.notify_on_finish == p.notify_on_finish
            &&& w != Switch::NotifyOnlyFailure ==> q.notify_only_on_failure
                == p.notify_only_on_failure
            &&& w != Switch::AutoSummon ==> q.auto_summon_on_finish == p.auto_summon_on_finish
            &&& w != Switch::FocusAutohide ==> q.focus_autohide == p.focus_autohide
            &&& w != Switch::LaunchAtLogin ==> q.launch_at_login == p.launch_at_login
            &&& q.window_mode == p.window_mode && q.summon_effect == p.summon_effect
        }),
{
    reveal(Stage::switched);
}

/// A switch of the screen effects touches no other's.
pub proof fn law_effect_switch_touches_its_own(s: Stage, w: Switch)
    ensures
        ({
            let p = s.prefs.fx;
            let q = s.switched(w).prefs.fx;
            &&& w != Switch::Crt ==> q.crt_enabled == p.crt_enabled
            &&& w != Switch::CrtRoll ==> q.crt_animate_roll == p.crt_animate_roll
            &&& w != Switch::CrtFlicker ==> q.crt_flicker == p.crt_flicker
            &&& w != Switch::CrtJitter ==> q.crt_jitter == p.crt_jitter
            &&& w != Switch::CaretFlash ==> q.caret_flash_enabled == p.caret_flash_enabled
            &&& w != Switch::CaretGlow ==> q.caret_glow_enabled == p.caret_glow_enabled
        }),
{
    reveal(Stage::switched);
}

/// What each button of the settings asks for.
pub proof fn law_settings_buttons_ask(s: Stage, a: SettingsAction)
    ensures
        s.panel_ask(SettingsAction::FontMinus) == AskView::FontDown,
        s.panel_ask(SettingsAction::FontPlus) == AskView::FontUp,
        s.panel_ask(SettingsAction::FontReset) == AskView::FontReset,
        s.panel_ask(SettingsAction::UiFontMinus) == AskView::UiFontDown,
        s.panel_ask(SettingsAction::UiFontPlus) == AskView::UiFontUp,
        s.panel_ask(SettingsAction::UiFontReset) == AskView::UiFontReset,
        s.panel_ask(SettingsAction::Flip(Switch::LaunchAtLogin)) == AskView::SetAutostart(
            s.switched(Switch::LaunchAtLogin).prefs.launch_at_login,
        ),
        a is SetTheme || a is ToggleThemes || a is ThemeRow || a is SetFont || a is FontRow
            || a is SetUiFont || a is UiFontRow || a is Summon || a is Mode || a is TabBar
            || a is Scrollback || a is NotifyMin || a is Shell || a is Page || a is Nothing
            ==> s.panel_ask(a) == AskView::Nothing,
        (a matches SettingsAction::Flip(w) && w != Switch::LaunchAtLogin) ==> s.panel_ask(a)
            == AskView::Nothing,
{
    reveal(Stage::switched);
}

/// Picking a theme takes it, restyles and closes the list; one that is not
/// there only closes it.
pub proof fn law_theme_pick(s: Stage, i: usize, c: Choices, n: Lengths, now: u64)
    ensures
        ({
            let r = s.panel_set(SettingsAction::SetTheme(i), c, n, now);
            &&& !r.panel.theme_dropdown_open
            &&& i < n.themes ==> r.panel.theme_idx == i && r.due.restyle
            &&& i >= n.themes ==> r.panel.theme_idx == s.panel.theme_idx && r.due == s.due
            &&& r.prefs == s.prefs
        }),
{
    reveal(Stage::theme_picked);
}

/// Scrolling a list moves that list by a row, within its ends, and no other.
pub proof fn law_lists_scroll(s: Stage, c: Choices, n: Lengths, now: u64)
    ensures
        ({
            let up = s.panel_set(SettingsAction::ThemeRow(true), c, n, now).panel;
            let down = s.panel_set(SettingsAction::ThemeRow(false), c, n, now).panel;
            let top = s.panel.theme_scroll_offset;
            &&& top > 0 ==> up.theme_scroll_offset == top - 1
            &&& top == 0 ==> up.theme_scroll_offset == 0
            &&& top + 9 < n.themes ==> down.theme_scroll_offset == top + 1
            &&& top + 9 == n.themes ==> down.theme_scroll_offset == top
            &&& up.font_scroll_offset == s.panel.font_scroll_offset
            &&& up.ui_font_scroll_offset == s.panel.ui_font_scroll_offset
        }),
        ({
            let up = s.panel_set(SettingsAction::FontRow(true), c, n, now).panel;
            let down = s.panel_set(SettingsAction::FontRow(false), c, n, now).panel;
            let top = s.panel.font_scroll_offset;
            &&& top > 0 ==> up.font_scroll_offset == top - 1
            &&& top == 0 ==> up.font_scroll_offset == 0
            &&& top + 5 < n.fonts ==> down.font_scroll_offset == top + 1
            &&& top + 5 == n.fonts ==> down.font_scroll_offset == top
            &&& up.theme_scroll_offset == s.panel.theme_scroll_offset
            &&& up.ui_font_scroll_offset == s.panel.ui_font_scroll_offset
        }),
        ({
            let up = s.panel_set(SettingsAction::UiFontRow(true), c, n, now).panel;
            let down = s.panel_set(SettingsAction::UiFontRow(false), c, n, now).panel;
            let top = s.panel.ui_font_scroll_offset;
            &&& top > 0 ==> up.ui_font_scroll_offset == top - 1
            &&& top == 0 ==> up.ui_font_scroll_offset == 0
            &&& top + 4 < n.ui_fonts ==> down.ui_font_scroll_offset == top + 1
            &&& top + 4 == n.ui_fonts ==> down.ui_font_scroll_offset == top
            &&& up.theme_scroll_offset == s.panel.theme_scroll_offset
            &&& up.font_scroll_offset == s.panel.font_scroll_offset
        }),
{
    reveal(Stage::list_scrolled);
}

/// The wheel scrolls the font list it turns over, away from the user towards
/// its first row; on the last page it only repaints.
pub proof fn law_wheel_scrolls_fonts(s: Stage, lines: i32, over: Option<List>, n: Lengths)
    ensures
        ({
            let r = s.panel_wheeled(lines, over, n);
            let fonts = n.fonts > 0 || n.ui_fonts > 0;
            let page = s.panel.settings_tab;
            &&& page == 4 ==> r.due.paint_settings && r.panel == s.panel
            &&& page != 4 && lines == 0 ==> r == s
            &&& page != 4 && lines > 0 && fonts && over == Some(List::Fonts)
                && s.panel.font_scroll_offset > 0 ==> r.panel.font_scroll_offset
                == s.panel.font_scroll_offset - 1 && r.due.paint_settings
            &&& page != 4 && lines < 0 && fonts && over == Some(List::Fonts)
                && s.panel.font_scroll_offset + 5 < n.fonts ==> r.panel.font_scroll_offset
                == s.panel.font_scroll_offset + 1 && r.due.paint_settings
            &&& page != 4 && lines > 0 && fonts && over == Some(List::UiFonts)
                && s.panel.ui_font_scroll_offset > 0 ==> r.panel.ui_font_scroll_offset
                == s.panel.ui_font_scroll_offset - 1 && r.due.paint_settings
            &&& page != 4 && lines < 0 && fonts && over == Some(List::UiFonts)
                && s.panel.ui_font_scroll_offset + 4 < n.ui_fonts ==> r.panel.ui_font_scroll_offset
                == s.panel.ui_font_scroll_offset + 1 && r.due.paint_settings
            &&& over is None ==> r.panel == s.panel
            &&& r.panel.theme_scroll_offset == s.panel.theme_scroll_offset
            &&& r.prefs == s.prefs
        }),
{
    reveal(Stage::panel_wheeled);
    reveal(Stage::list_scrolled);
}

/// The choices that step take the step they were given, each its own setting.
pub proof fn law_steps_are_taken(s: Stage, f: bool, c: Choices, n: Lengths, now: u64)
    ensures
        s.panel_set(SettingsAction::Summon(f), c, n, now).prefs.summon_effect == c.effect,
        s.panel_set(SettingsAction::Mode(f), c, n, now).prefs.window_mode == c.mode,
        s.panel_set(SettingsAction::Scrollback(f), c, n, now).prefs.scrollback_lines == c.lines,
        s.panel_set(SettingsAction::NotifyMin(f), c, n, now).prefs.notify_min_seconds
            == c.seconds,
        s.panel_set(SettingsAction::TabBar, c, n, now).prefs.tab_bar_bottom
            == !s.prefs.tab_bar_bottom,
        (SettingsAction::Summon(f)).forward() == f,
        (SettingsAction::Mode(f)).forward() == f,
        (SettingsAction::Scrollback(f)).forward() == f,
        (SettingsAction::NotifyMin(f)).forward() == f,
{
    reveal(Stage::effect_chosen);
    reveal(Stage::mode_chosen);
    reveal(Stage::scrollback_limited);
    reveal(Stage::notify_min_set);
    reveal(Stage::bar_moved);
}

/// Turning to a page shows it, the last one for a number past the end, and
/// writes nothing.
pub proof fn law_pages(
    v: AppView,
    i: usize,
    c: Choices,
    themes: usize,
    offered: Seq<Seq<char>>,
    env: Env,
)
    ensures
        ({
            let w = v.settings_acted(SettingsAction::Page(i), c, themes, offered, env);
            &&& i <= 4 ==> w.st.panel.settings_tab == i
            &&& i > 4 ==> w.st.panel.settings_tab == 4
            &&& w.st.due.paint_settings && w.st.due.persist == v.st.due.persist
            &&& !w.st.panel.theme_dropdown_open
            &&& w.st.prefs == v.st.prefs && w.text == v.text
        }),
{
    reveal(Stage::page_shown);
    reveal(Stage::list_left);
}

/// Every other action of the settings is written and painted everywhere, and
/// one outside the list of themes closes that list.
pub proof fn law_settings_are_written(
    v: AppView,
    a: SettingsAction,
    c: Choices,
    themes: usize,
    offered: Seq<Seq<char>>,
    env: Env,
)
    requires
        a !is Page,
    ensures
        ({
            let w = v.settings_acted(a, c, themes, offered, env);
            &&& w.st.due.paint_main && w.st.due.paint_detached && w.st.due.paint_settings
            &&& w.st.due.persist || w.st.panel.reloading
        }),
{
}

/// An action outside the list of themes closes that list first, one within it
/// finds it as it was.
pub proof fn law_theme_list_is_left(s: Stage, a: SettingsAction)
    ensures
        a is SetTheme || a is ToggleThemes || a is ThemeRow ==> s.list_left(a) == s,
        !(a is SetTheme || a is ToggleThemes || a is ThemeRow) ==> !s.list_left(
            a,
        ).panel.theme_dropdown_open,
        s.list_left(a).prefs == s.prefs && s.list_left(a).due == s.due,
{
    reveal(Stage::list_left);
}

/// Picking a font takes the one in that row; the first row of the interface
/// fonts stands for the default one. A row that is not there changes nothing.
pub proof fn law_font_rows(
    v: AppView,
    i: usize,
    c: Choices,
    themes: usize,
    offered: Seq<Seq<char>>,
    env: Env,
)
    ensures
        ({
            let w = v.panel_acted(SettingsAction::SetFont(i), c, themes, offered, env);
            &&& i < v.text.font_families.len() ==> w.text.font_family
                == v.text.font_families[i as int] && w.st.due.refont
            &&& i >= v.text.font_families.len() ==> w == v
            &&& w.text.ui_font_family == v.text.ui_font_family
        }),
        ({
            let w = v.panel_acted(SettingsAction::SetUiFont(i), c, themes, offered, env);
            &&& i == 0 ==> w.text.ui_font_family.len() == 0 && w.st.due.refont
            &&& 0 < i < v.text.ui_font_families.len() ==> w.text.ui_font_family
                == v.text.ui_font_families[i as int] && w.st.due.refont
            &&& i > 0 && i >= v.text.ui_font_families.len() ==> w == v
            &&& w.text.font_family == v.text.font_family
        }),
{
    reveal(AppView::panel_acted);
    reveal(Stage::family_changed);
}

/// The buttons of the font size refit every grid a quarter of a second later;
/// those of the interface font size load the fonts anew.
pub proof fn law_font_size_buttons(
    v: AppView,
    a: SettingsAction,
    c: Choices,
    themes: usize,
    offered: Seq<Seq<char>>,
    env: Env,
)
    requires
        env.now <= LAST_INSTANT,
    ensures
        ({
            let w = v.panel_acted(a, c, themes, offered, env);
            &&& a is FontMinus || a is FontPlus || a is FontReset
                ==> w.st.timers.reflow_pending_at == Some((env.now + 250_000_000) as u64)
                && w.st.due.relink && w.st.due.paint_main
            &&& a is UiFontMinus || a is UiFontPlus || a is UiFontReset ==> w.st.due.refont
                && w.st.due.paint_settings && w.st.due.paint_main && w.st.due.paint_detached
            &&& a is FontMinus || a is FontPlus || a is FontReset || a is UiFontMinus
                || a is UiFontPlus || a is UiFontReset ==> w.text == v.text && w.st.prefs
                == v.st.prefs && w.tabs == v.tabs
        }),
{
    reveal(AppView::panel_acted);
}

/// The choices that a step offers: the effect after or before the one in use,
/// the other window mode.
pub proof fn law_next_effect_and_mode(p: Prefs, forward: bool, c: Choices)
    requires
        p.next_choices(forward, c),
    ensures
        forward && p.summon_effect == SummonEffect::Plain ==> c.effect == SummonEffect::Bayer,
        forward && p.summon_effect == SummonEffect::Bayer ==> c.effect == SummonEffect::Phosphor,
        forward && p.summon_effect == SummonEffect::Phosphor ==> c.effect == SummonEffect::Liquid,
        forward && p.summon_effect == SummonEffect::Liquid ==> c.effect == SummonEffect::Focus,
        forward && p.summon_effect == SummonEffect::Focus ==> c.effect == SummonEffect::Plain,
        !forward && p.summon_effect == SummonEffect::Plain ==> c.effect == SummonEffect::Focus,
        !forward && p.summon_effect == SummonEffect::Bayer ==> c.effect == SummonEffect::Plain,
        !forward && p.summon_effect == SummonEffect::Phosphor ==> c.effect == SummonEffect::Bayer,
        !forward && p.summon_effect == SummonEffect::Liquid ==> c.effect == SummonEffect::Phosphor,
        !forward && p.summon_effect == SummonEffect::Focus ==> c.effect == SummonEffect::Liquid,
        p.window_mode == WindowMode::Center ==> c.mode == WindowMode::Dropdown,
        p.window_mode == WindowMode::Dropdown ==> c.mode == WindowMode::Center,
{
}

/// The choices that a step offers: the number of lines and of seconds next to
/// the one in use.
pub proof fn law_next_lines_and_seconds(p: Prefs, c: Choices)
    requires
        p.next_choices(true, c),
    ensures
        p.scrollback_lines == 10_000 ==> c.lines == 25_000,
        p.scrollback_lines == 100_000 ==> c.lines == 1_000,
        p.notify_min_seconds == 10 ==> c.seconds == 30,
        p.notify_min_seconds == 300 ==> c.seconds == 5,
{
    crate::steps::law_steps_ascend();
    let s = scrollback_steps();
    let n = notify_steps();
    if p.scrollback_lines == 10_000 {
        crate::steps::law_step_goes_to_the_neighbour(s, 2, true, c.lines as int);
    }
    if p.scrollback_lines == 100_000 {
        crate::steps::law_step_goes_to_the_neighbour(s, 5, true, c.lines as int);
    }
    if p.notify_min_seconds == 10 {
        crate::steps::law_step_goes_to_the_neighbour(n, 1, true, c.seconds as int);
    }
    if p.notify_min_seconds == 300 {
        crate::steps::law_step_goes_to_the_neighbour(n, 5, true, c.seconds as int);
    }
}

} // verus!
