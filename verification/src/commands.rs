//! Carrying out the commands of the palette.

use vstd::prelude::*;

use crate::actions::lemma_same;
use crate::input::{Ask, AskView};
use crate::presence::{Env, LAST_INSTANT};
use crate::state::{
    App, AppView, FxToggles, Overlays, Panel, PaletteCmd, Prefs, Stage,
};
use crate::tabs::lemma_wf_stage;

verus! {

impl FxToggles {
    /// One of the effects' switches, named by its command, is flipped.
    pub open spec fn flipped(self, c: PaletteCmd) -> FxToggles {
        match c {
            PaletteCmd::ToggleCrt => FxToggles { crt_enabled: !self.crt_enabled, ..self },
            PaletteCmd::ToggleCrtRoll => FxToggles {
                crt_animate_roll: !self.crt_animate_roll,
                ..self
            },
            PaletteCmd::ToggleCrtFlicker => FxToggles { crt_flicker: !self.crt_flicker, ..self },
            PaletteCmd::ToggleCrtJitter => FxToggles { crt_jitter: !self.crt_jitter, ..self },
            PaletteCmd::ToggleCaretFlash => FxToggles {
                caret_flash_enabled: !self.caret_flash_enabled,
                ..self
            },
            PaletteCmd::ToggleCaretGlow => FxToggles {
                caret_glow_enabled: !self.caret_glow_enabled,
                ..self
            },
            _ => self,
        }
    }

    fn flip(self, c: PaletteCmd) -> (r: FxToggles)
        ensures
            r == self.flipped(c),
    {
        match c {
            PaletteCmd::ToggleCrt => FxToggles { crt_enabled: !self.crt_enabled, ..self },
            PaletteCmd::ToggleCrtRoll => FxToggles {
                crt_animate_roll: !self.crt_animate_roll,
                ..self
            },
            PaletteCmd::ToggleCrtFlicker => FxToggles { crt_flicker: !self.crt_flicker, ..self },
            PaletteCmd::ToggleCrtJitter => FxToggles { crt_jitter: !self.crt_jitter, ..self },
            PaletteCmd::ToggleCaretFlash => FxToggles {
                caret_flash_enabled: !self.caret_flash_enabled,
                ..self
            },
            PaletteCmd::ToggleCaretGlow => FxToggles {
                caret_glow_enabled: !self.caret_glow_enabled,
                ..self
            },
            _ => self,
        }
    }
}

impl Stage {
    /// The switches of the effects are `fx`; every window shows it.
    pub open spec fn spec_fx_set(self, fx: FxToggles) -> Stage {
        (Stage { prefs: Prefs { fx, ..self.prefs }, ..self }).persist().paint_all()
    }

    /// The switches of the effects are `fx`; every window shows it.
    #[verifier::when_used_as_spec(spec_fx_set)]
    pub fn fx_set(self, fx: FxToggles) -> (r: Stage)
        ensures
            r == self.spec_fx_set(fx),
    {
        (Stage { prefs: Prefs { fx, ..self.prefs }, ..self }).persist().paint_all()
    }

    /// The performance display is switched; it takes rows from the grid, so
    /// the grids are fitted.
    pub open spec fn hud_toggled(self, env: Env) -> Stage {
        (Stage {
            prefs: Prefs { show_perf_hud: !self.prefs.show_perf_hud, ..self.prefs },
            ..self
        }).reflowed(env).persist().paint_main()
    }

    /// Switches the performance display.
    pub fn toggle_perf_hud(self, env: &Env) -> (r: Stage)
        ensures
            r == self.hud_toggled(*env),
    {
        (Stage {
            prefs: Prefs { show_perf_hud: !self.prefs.show_perf_hud, ..self.prefs },
            ..self
        }).reflow(env).persist().paint_main()
    }

    /// The welcome text shows.
    pub open spec fn spec_welcome(self) -> Stage {
        (Stage { ui: Overlays { welcome_open: true, ..self.ui }, ..self }).paint_main()
    }

    /// The welcome text shows.
    #[verifier::when_used_as_spec(spec_welcome)]
    pub fn welcome(self) -> (r: Stage)
        ensures
            r == self.spec_welcome(),
    {
        (Stage { ui: Overlays { welcome_open: true, ..self.ui }, ..self }).paint_main()
    }

    /// Starting at login is switched.
    pub open spec fn spec_login_toggled(self) -> Stage {
        (Stage {
            prefs: Prefs { launch_at_login: !self.prefs.launch_at_login, ..self.prefs },
            ..self
        }).persist()
    }

    /// Starting at login is switched.
    #[verifier::when_used_as_spec(spec_login_toggled)]
    pub fn login_toggled(self) -> (r: Stage)
        ensures
            r == self.spec_login_toggled(),
    {
        (Stage {
            prefs: Prefs { launch_at_login: !self.prefs.launch_at_login, ..self.prefs },
            ..self
        }).persist()
    }

    /// Theme `i` is chosen.
    pub open spec fn spec_theme_set(self, i: usize) -> Stage {
        (Stage {
            panel: Panel { theme_idx: i, ..self.panel },
            ..self
        }).apply_theme().persist().paint_all()
    }

    /// Theme `i` is chosen.
    #[verifier::when_used_as_spec(spec_theme_set)]
    pub fn theme_set(self, i: usize) -> (r: Stage)
        ensures
            r == self.spec_theme_set(i),
    {
        (Stage {
            panel: Panel { theme_idx: i, ..self.panel },
            ..self
        }).apply_theme().persist().paint_all()
    }

    /// What a command does to the scalar state, of the commands that change
    /// nothing else. `id` names the active tab; there are `themes` themes.
    pub open spec fn ran(self, c: PaletteCmd, id: Option<u64>, themes: usize, env: Env) -> Stage {
        match c {
            PaletteCmd::OpacityUp
            | PaletteCmd::OpacityDown => self.apply_theme().persist().paint_all(),
            PaletteCmd::ToggleCrt
            | PaletteCmd::ToggleCrtRoll
            | PaletteCmd::ToggleCrtFlicker
            | PaletteCmd::ToggleCrtJitter
            | PaletteCmd::ToggleCaretFlash
            | PaletteCmd::ToggleCaretGlow => self.fx_set(self.prefs.fx.flipped(c)),
            PaletteCmd::TogglePerfHud => self.hud_toggled(env),
            PaletteCmd::ShowWelcome => self.welcome(),
            PaletteCmd::Search => if self.ui.search_open {
                self.paint_main()
            } else {
                self.open_search(id)
            },
            PaletteCmd::ToggleLaunchAtLogin => self.login_toggled(),
            PaletteCmd::ResetKeybindings => self.persist().paint_main(),
            PaletteCmd::Hide => self.visibility(false, env),
            PaletteCmd::Quit => self.ask_quit(),
            PaletteCmd::SetTheme(i) => if i < themes {
                self.theme_set(i)
            } else {
                self
            },
            _ => self,
        }
    }

    fn run(self, c: PaletteCmd, id: Option<u64>, themes: usize, env: &Env) -> (r: Stage)
        requires
            env.now <= LAST_INSTANT,
        ensures
            r == self.ran(c, id, themes, *env),
    {
        match c {
            PaletteCmd::OpacityUp
            | PaletteCmd::OpacityDown => self.apply_theme().persist().paint_all(),
            PaletteCmd::ToggleCrt
            | PaletteCmd::ToggleCrtRoll
            | PaletteCmd::ToggleCrtFlicker
            | PaletteCmd::ToggleCrtJitter
            | PaletteCmd::ToggleCaretFlash
            | PaletteCmd::ToggleCaretGlow => self.fx_set(self.prefs.fx.flip(c)),
            PaletteCmd::TogglePerfHud => self.toggle_perf_hud(env),
            PaletteCmd::ShowWelcome => self.welcome(),
            PaletteCmd::Search => if self.ui.search_open {
                self.paint_main()
            } else {
                self.open_search(id)
            },
            PaletteCmd::ToggleLaunchAtLogin => self.login_toggled(),
            PaletteCmd::ResetKeybindings => self.persist().paint_main(),
            PaletteCmd::Hide => self.set_visibility(false, env),
            PaletteCmd::Quit => self.ask_quit(),
            PaletteCmd::SetTheme(i) => if i < themes {
                self.theme_set(i)
            } else {
                self
            },
            _ => self,
        }
    }

    /// What a command asks of the outside. `active` is the active tab.
    pub open spec fn command_ask(self, c: PaletteCmd, active: usize) -> AskView {
        match c {
            PaletteCmd::NewTab => AskView::SpawnTab,
            PaletteCmd::DetachTab => AskView::Detach(active as int),
            PaletteCmd::OpenSettings => if self.presence.settings_window is None {
                AskView::OpenSettings
            } else {
                AskView::Nothing
            },
            PaletteCmd::FontUp => AskView::FontUp,
            PaletteCmd::FontDown => AskView::FontDown,
            PaletteCmd::FontReset => AskView::FontReset,
            PaletteCmd::OpacityUp => AskView::OpacityUp,
            PaletteCmd::OpacityDown => AskView::OpacityDown,
            PaletteCmd::HintMode => AskView::EnterHint,
            PaletteCmd::CopyMode => AskView::EnterCopy,
            PaletteCmd::PrevPrompt => AskView::JumpPrompt(false),
            PaletteCmd::NextPrompt => AskView::JumpPrompt(true),
            PaletteCmd::Copy => AskView::CopySelection,
            PaletteCmd::Paste => AskView::PasteClipboard,
            PaletteCmd::ToggleLaunchAtLogin => AskView::SetAutostart(!self.prefs.launch_at_login),
            PaletteCmd::ResetKeybindings => AskView::ResetKeys,
            _ => AskView::Nothing,
        }
    }

    fn ask_for_command(self, c: PaletteCmd, active: usize) -> (r: Ask)
        ensures
            r@ == self.command_ask(c, active),
    {
        match c {
            PaletteCmd::NewTab => Ask::SpawnTab,
            PaletteCmd::DetachTab => Ask::Detach(active),
            PaletteCmd::OpenSettings => if self.presence.settings_window.is_none() {
                Ask::OpenSettings
            } else {
                Ask::Nothing
            },
            PaletteCmd::FontUp => Ask::FontUp,
            PaletteCmd::FontDown => Ask::FontDown,
            PaletteCmd::FontReset => Ask::FontReset,
            PaletteCmd::OpacityUp => Ask::OpacityUp,
            PaletteCmd::OpacityDown => Ask::OpacityDown,
            PaletteCmd::HintMode => Ask::EnterHint,
            PaletteCmd::CopyMode => Ask::EnterCopy,
            PaletteCmd::PrevPrompt => Ask::JumpPrompt(false),
            PaletteCmd::NextPrompt => Ask::JumpPrompt(true),
            PaletteCmd::Copy => Ask::CopySelection,
            PaletteCmd::Paste => Ask::PasteClipboard,
            PaletteCmd::ToggleLaunchAtLogin => Ask::SetAutostart(!self.prefs.launch_at_login),
            PaletteCmd::ResetKeybindings => Ask::ResetKeys,
            _ => Ask::Nothing,
        }
    }
}

impl AppView {
    /// A command of the palette is carried out. A tab, window or theme that is
    /// no longer there makes it do nothing.
    pub open spec fn ran(self, c: PaletteCmd, themes: usize, env: Env) -> AppView {
        match c {
            PaletteCmd::CloseTab => AppView { st: self.st.ask_close(self.active as usize), ..self },
            PaletteCmd::NextTab => self.switch_tab(true),
            PaletteCmd::PrevTab => self.switch_tab(false),
            PaletteCmd::FontUp | PaletteCmd::FontDown | PaletteCmd::FontReset => self.font_sized(
                env.now,
            ),
            PaletteCmd::SelectTab(i) => if i < self.tabs.len() {
                self.select_tab(i as int)
            } else {
                self
            },
            PaletteCmd::Reattach(i) => if i < self.detached.len() {
                self.reattach(i as int, env)
            } else {
                self
            },
            _ => AppView { st: self.st.ran(c, self.active_id(), themes, env), ..self },
        }
    }
}

impl App {
    /// Carries out a command of the palette, which is closed by then.
    pub fn run_palette_cmd(&mut self, c: PaletteCmd, themes: usize, env: &Env) -> (r: Ask)
        requires
            old(self)@.wf(),
            old(self)@.tabs.len() > 0,
            env.now <= LAST_INSTANT,
        ensures
            final(self)@ == old(self)@.ran(c, themes, *env),
            r@ == old(self)@.st.command_ask(c, old(self).active),
            final(self)@.wf(),
    {
        let ask: Ask = self.st.ask_for_command(c, self.active);
        match c {
            PaletteCmd::CloseTab => {
                let _none: Ask = self.act(crate::input::KeyAction::CloseTab, env.now);
            },
            PaletteCmd::NextTab => {
                self.switch_tab(true);
            },
            PaletteCmd::PrevTab => {
                self.switch_tab(false);
            },
            PaletteCmd::FontUp | PaletteCmd::FontDown | PaletteCmd::FontReset => {
                self.font_sized(env.now);
            },
            PaletteCmd::SelectTab(i) => {
                if i < self.tabs.len() {
                    self.select_tab(i);
                }
            },
            PaletteCmd::Reattach(i) => {
                self.reattach_tab(i, env);
            },
            _ => {
                self.run_scalar(c, themes, env);
            },
        }
        ask
    }

    fn run_scalar(&mut self, c: PaletteCmd, themes: usize, env: &Env)
        requires
            old(self)@.wf(),
            env.now <= LAST_INSTANT,
        ensures
            final(self)@ == (AppView {
                st: old(self)@.st.ran(c, old(self)@.active_id(), themes, *env),
                ..old(self)@
            }),
            final(self)@.wf(),
    {
        let id: Option<u64> = self.active_tab_id();
        proof {
            lemma_ran_same(self@.st, c, id, themes, *env);
            lemma_wf_stage(self@, self@.st.ran(c, id, themes, *env));
        }
        self.st = self.st.run(c, id, themes, env);
    }
}

proof fn lemma_hud_same(s: Stage, env: Env)
    ensures
        s.same_indices(s.hud_toggled(env)),
{
    lemma_same(s, s.hud_toggled(env));
}

proof fn lemma_fx_same(s: Stage, fx: FxToggles)
    ensures
        s.same_indices(s.fx_set(fx)),
{
    lemma_same(s, s.fx_set(fx));
}

proof fn lemma_theme_same(s: Stage, i: usize)
    ensures
        s.same_indices(s.theme_set(i)),
        s.same_indices(s.apply_theme().persist().paint_all()),
{
    lemma_same(s, s.theme_set(i));
    lemma_same(s, s.apply_theme().persist().paint_all());
}

proof fn lemma_search_same(s: Stage, id: Option<u64>)
    ensures
        s.same_indices(s.open_search(id)),
        s.same_indices(s.paint_main()),
        s.same_indices(s.persist().paint_main()),
        s.same_indices(s),
{
    lemma_same(s, s.open_search(id));
    lemma_same(s, s.paint_main());
    lemma_same(s, s.persist().paint_main());
    lemma_same(s, s);
}

proof fn lemma_flags_same(s: Stage)
    ensures
        s.same_indices(s.welcome()),
        s.same_indices(s.login_toggled()),
        s.same_indices(s.ask_quit()),
{
    lemma_same(s, s.welcome());
    lemma_same(s, s.login_toggled());
    lemma_same(s, s.ask_quit());
}

proof fn lemma_ran_same(s: Stage, c: PaletteCmd, id: Option<u64>, themes: usize, env: Env)
    ensures
        s.same_indices(s.ran(c, id, themes, env)),
{
    lemma_hud_same(s, env);
    crate::notify::lemma_visibility_frame(s, false, env);
    lemma_search_same(s, id);
    lemma_flags_same(s);
    lemma_fx_same(s, s.prefs.fx.flipped(c));
    lemma_theme_same(
        s,
        match c {
            PaletteCmd::SetTheme(i) => i,
            _ => 0,
        },
    );
}

/// Every switch flips back: a toggling command run twice changes nothing of
/// the effects.
pub proof fn law_fx_toggle_twice(fx: FxToggles, c: PaletteCmd)
    ensures
        fx.flipped(c).flipped(c) == fx,
{
}

/// A theme, tab or window that vanished between opening the palette and
/// running its command makes the command do nothing.
pub proof fn law_stale_command_does_nothing(v: AppView, c: PaletteCmd, themes: usize, env: Env)
    requires
        (c matches PaletteCmd::SetTheme(i) && i >= themes) || (c matches PaletteCmd::SelectTab(i) && i
            >= v.tabs.len()) || (c matches PaletteCmd::Reattach(i) && i >= v.detached.len()),
    ensures
        v.ran(c, themes, env) == v,
{
}

/// Each command of the palette asks for its own effect, and those that a key
/// carries out too ask for the same as the key.
pub proof fn law_commands_ask_for_their_effect(s: Stage, active: usize)
    ensures
        s.command_ask(PaletteCmd::NewTab, active) == AskView::SpawnTab,
        s.command_ask(PaletteCmd::DetachTab, active) == AskView::Detach(active as int),
        s.command_ask(PaletteCmd::FontUp, active) == AskView::FontUp,
        s.command_ask(PaletteCmd::FontDown, active) == AskView::FontDown,
        s.command_ask(PaletteCmd::FontReset, active) == AskView::FontReset,
        s.command_ask(PaletteCmd::OpacityUp, active) == AskView::OpacityUp,
        s.command_ask(PaletteCmd::OpacityDown, active) == AskView::OpacityDown,
        s.command_ask(PaletteCmd::HintMode, active) == AskView::EnterHint,
        s.command_ask(PaletteCmd::CopyMode, active) == AskView::EnterCopy,
        s.command_ask(PaletteCmd::PrevPrompt, active) == AskView::JumpPrompt(false),
        s.command_ask(PaletteCmd::NextPrompt, active) == AskView::JumpPrompt(true),
        s.command_ask(PaletteCmd::Copy, active) == AskView::CopySelection,
        s.command_ask(PaletteCmd::Paste, active) == AskView::PasteClipboard,
        s.command_ask(PaletteCmd::ResetKeybindings, active) == AskView::ResetKeys,
        s.command_ask(PaletteCmd::ToggleLaunchAtLogin, active) == AskView::SetAutostart(
            !s.prefs.launch_at_login,
        ),
        (s.command_ask(PaletteCmd::OpenSettings, active) == AskView::OpenSettings) == (
        s.presence.settings_window is None),
        s.presence.settings_window is Some ==> s.command_ask(PaletteCmd::OpenSettings, active)
            == AskView::Nothing,
{
}

/// The commands that change only the state ask for nothing.
pub proof fn law_other_commands_ask_nothing(s: Stage, c: PaletteCmd, active: usize)
    requires
        c is CloseTab || c is NextTab || c is PrevTab || c is ToggleCrt || c is ToggleCrtRoll || c
            is ToggleCrtFlicker || c is ToggleCrtJitter || c is ToggleCaretFlash || c
            is ToggleCaretGlow || c is TogglePerfHud || c is ShowWelcome || c is Search || c is Hide
            || c is Quit || c is SetTheme || c is SelectTab || c is Reattach,
    ensures
        s.command_ask(c, active) == AskView::Nothing,
{
}

/// Each switch of the effects flips its own part and no other, is written
/// down, and every window shows it.
pub proof fn law_effect_switches(v: AppView, c: PaletteCmd, themes: usize, env: Env)
    requires
        c is ToggleCrt || c is ToggleCrtRoll || c is ToggleCrtFlicker || c is ToggleCrtJitter || c
            is ToggleCaretFlash || c is ToggleCaretGlow,
    ensures
        ({
            let was = v.st.prefs.fx;
            let after = v.ran(c, themes, env);
            let is = after.st.prefs.fx;
            &&& is.crt_enabled == (was.crt_enabled != (c is ToggleCrt))
            &&& is.crt_animate_roll == (was.crt_animate_roll != (c is ToggleCrtRoll))
            &&& is.crt_flicker == (was.crt_flicker != (c is ToggleCrtFlicker))
            &&& is.crt_jitter == (was.crt_jitter != (c is ToggleCrtJitter))
            &&& is.caret_flash_enabled == (was.caret_flash_enabled != (c is ToggleCaretFlash))
            &&& is.caret_glow_enabled == (was.caret_glow_enabled != (c is ToggleCaretGlow))
            &&& after.st.due.paint_main && after.st.due.paint_detached
            &&& after.st.due.persist == (v.st.due.persist || !v.st.panel.reloading)
            &&& after.tabs == v.tabs && after.active == v.active && after.detached == v.detached
        }),
{
}

/// The performance display flips, which is written down and shown; it takes
/// room, so the grids are fitted.
pub proof fn law_display_command(v: AppView, themes: usize, env: Env)
    ensures
        ({
            let s = v.ran(PaletteCmd::TogglePerfHud, themes, env).st;
            &&& s.prefs.show_perf_hud == !v.st.prefs.show_perf_hud
            &&& s.prefs.fx == v.st.prefs.fx && s.prefs.launch_at_login == v.st.prefs.launch_at_login
            &&& s.due.paint_main
            &&& env.grid_ready ==> s.due.reflow
            &&& !v.st.panel.reloading ==> s.due.persist
        }),
{
}

/// Starting at login flips, and that is written down.
pub proof fn law_login_command(v: AppView, themes: usize, env: Env)
    ensures
        ({
            let s = v.ran(PaletteCmd::ToggleLaunchAtLogin, themes, env).st;
            &&& s.prefs.launch_at_login == !v.st.prefs.launch_at_login
            &&& s.prefs.fx == v.st.prefs.fx && s.prefs.show_perf_hud == v.st.prefs.show_perf_hud
            &&& !v.st.panel.reloading ==> s.due.persist
        }),
{
}

/// Key bindings that are reset are written down.
pub proof fn law_reset_command(v: AppView, themes: usize, env: Env)
    ensures
        ({
            let s = v.ran(PaletteCmd::ResetKeybindings, themes, env).st;
            &&& s.due.paint_main
            &&& !v.st.panel.reloading ==> s.due.persist
        }),
{
}

/// The welcome text and the search bar open, the latter for the active tab.
pub proof fn law_opening_commands(v: AppView, themes: usize, env: Env)
    ensures
        v.ran(PaletteCmd::ShowWelcome, themes, env).st.ui.welcome_open,
        v.ran(PaletteCmd::ShowWelcome, themes, env).st.due.paint_main,
        v.ran(PaletteCmd::Search, themes, env).st.ui.search_open,
        v.ran(PaletteCmd::Search, themes, env).st.due.paint_main,
        !v.st.ui.search_open && 0 <= v.active < v.tabs.len() ==> v.ran(
            PaletteCmd::Search,
            themes,
            env,
        ).st.due.search_refresh == Some(v.tabs[v.active].id),
{
}

/// Hiding hides; quitting and closing a tab only ask.
pub proof fn law_leaving_commands(v: AppView, themes: usize, env: Env)
    ensures
        !v.ran(PaletteCmd::Hide, themes, env).st.presence.visible,
        v.ran(PaletteCmd::Quit, themes, env).st.ui.confirm_quit,
        v.ran(PaletteCmd::Quit, themes, env).st.due.exit == v.st.due.exit,
        v.ran(PaletteCmd::CloseTab, themes, env).st.ui.confirm_close == Some(v.active as usize),
        v.ran(PaletteCmd::CloseTab, themes, env).tabs == v.tabs,
{
    crate::presence::law_visibility_is_what_was_asked(v.st, false, env);
}

/// A theme that is chosen is the theme: it goes into every terminal, is
/// written down and shown.
pub proof fn law_theme_command(v: AppView, i: usize, themes: usize, env: Env)
    requires
        i < themes,
    ensures
        ({
            let after = v.ran(PaletteCmd::SetTheme(i), themes, env);
            &&& after.st.panel.theme_idx == i
            &&& after.st.due.restyle && after.st.due.paint_main && after.st.due.paint_detached
            &&& !v.st.panel.reloading ==> after.st.due.persist
        }),
{
}

/// The commands for the neighbouring tabs and for the font do what their keys
/// do.
pub proof fn law_commands_and_keys_agree(v: AppView, themes: usize, env: Env)
    ensures
        v.ran(PaletteCmd::NextTab, themes, env) == v.acted(
            crate::input::KeyAction::NextTab,
            env.now,
        ),
        v.ran(PaletteCmd::PrevTab, themes, env) == v.acted(
            crate::input::KeyAction::PrevTab,
            env.now,
        ),
        v.ran(PaletteCmd::FontUp, themes, env) == v.acted(crate::input::KeyAction::FontUp, env.now),
        v.ran(PaletteCmd::FontDown, themes, env) == v.acted(
            crate::input::KeyAction::FontDown,
            env.now,
        ),
        v.ran(PaletteCmd::FontReset, themes, env) == v.acted(
            crate::input::KeyAction::FontReset,
            env.now,
        ),
{
}

/// A tab is selected by its place.
pub proof fn law_select_command(v: AppView, i: usize, themes: usize, env: Env)
    requires
        i < v.tabs.len(),
    ensures
        v.ran(PaletteCmd::SelectTab(i), themes, env).active == i,
        v.ran(PaletteCmd::SelectTab(i), themes, env).tabs == v.tabs,
{
}

/// A detached tab comes back as the last one.
pub proof fn law_reattach_command(v: AppView, i: usize, themes: usize, env: Env)
    requires
        i < v.detached.len(),
    ensures
        v.ran(PaletteCmd::Reattach(i), themes, env).detached == v.detached.remove(i as int),
        v.ran(PaletteCmd::Reattach(i), themes, env).tabs.len() == v.tabs.len() + 1,
        v.ran(PaletteCmd::Reattach(i), themes, env).tabs.last().id == v.detached[i as int].tab.id,
{
}

} // verus!
