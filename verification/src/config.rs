//! The configuration: starting from it, writing it down and following it.

use vstd::prelude::*;

use crate::effect::{from_key, SummonEffect};
use crate::mode::{mode_of_key, WindowMode};
use crate::state::{
    hint_view, App, AppView, Due, FxToggles, Overlays, Palette, PaletteView, Panel, Pointer, Prefs,
    Presence, Stage, TextPrefs, TextPrefsView, Timers,
};
use crate::text::str_eq;
use crate::zone::ResizeZone;

verus! {

/// The fewest lines that a terminal can be asked to keep.
pub const SCROLLBACK_MIN: usize = 100;

/// The most lines that a terminal can be asked to keep.
pub const SCROLLBACK_MAX: usize = 100_000;

/// The longest time, in seconds, that a command can be asked to run before it
/// is worth a notification.
pub const NOTIFY_MAX_SECONDS: u64 = 86_400;

/// The configuration's switches and whole numbers.
#[derive(Debug, Clone, Copy)]
pub struct ConfigFlags {
    pub focus_autohide: bool,
    pub launch_at_login: bool,
    pub scrollback_lines: usize,
    pub show_welcome: bool,
    pub show_perf_hud: bool,
    pub fx: FxToggles,
    pub notify_on_command_finish: bool,
    pub notify_min_seconds: u64,
    pub notify_only_on_failure: bool,
    pub auto_summon_on_finish: bool,
    pub osc52_allow_paste: bool,
    pub hot_reload: bool,
}

/// The configuration, but for fractions, key bindings and the theme's name.
#[derive(Debug)]
pub struct Config {
    pub font_family: String,
    pub ui_font_family: String,
    pub summon_effect: String,
    pub window_mode: String,
    pub tab_bar_position: String,
    pub summon_hotkey: String,
    pub shell: String,
    pub flags: ConfigFlags,
}

/// View of a [`Config`].
pub struct ConfigView {
    pub font_family: Seq<char>,
    pub ui_font_family: Seq<char>,
    pub summon_effect: Seq<char>,
    pub window_mode: Seq<char>,
    pub tab_bar_position: Seq<char>,
    pub summon_hotkey: Seq<char>,
    pub shell: Seq<char>,
    pub flags: ConfigFlags,
}

impl View for Config {
    type V = ConfigView;

    open spec fn view(&self) -> ConfigView {
        ConfigView {
            font_family: self.font_family@,
            ui_font_family: self.ui_font_family@,
            summon_effect: self.summon_effect@,
            window_mode: self.window_mode@,
            tab_bar_position: self.tab_bar_position@,
            summon_hotkey: self.summon_hotkey@,
            shell: self.shell@,
            flags: self.flags,
        }
    }
}

/// The scrollback limit nearest to `n` that is allowed.
pub open spec fn limit_lines(n: usize) -> usize {
    if n < SCROLLBACK_MIN {
        SCROLLBACK_MIN
    } else if n > SCROLLBACK_MAX {
        SCROLLBACK_MAX
    } else {
        n
    }
}

/// The notification threshold nearest to `n` that is allowed.
pub open spec fn limit_seconds(n: u64) -> u64 {
    if n < 1 {
        1
    } else if n > NOTIFY_MAX_SECONDS {
        NOTIFY_MAX_SECONDS
    } else {
        n
    }
}

pub(crate) fn clamp_lines(n: usize) -> (r: usize)
    ensures
        r == limit_lines(n),
{
    if n < SCROLLBACK_MIN {
        SCROLLBACK_MIN
    } else if n > SCROLLBACK_MAX {
        SCROLLBACK_MAX
    } else {
        n
    }
}

pub(crate) fn clamp_seconds(n: u64) -> (r: u64)
    ensures
        r == limit_seconds(n),
{
    if n < 1 {
        1
    } else if n > NOTIFY_MAX_SECONDS {
        NOTIFY_MAX_SECONDS
    } else {
        n
    }
}

impl ConfigView {
    /// The settings that the configuration holds. Whether the application
    /// starts at login is told by the file that makes it start, `autostart`.
    pub open spec fn prefs(self, autostart: bool) -> Prefs {
        Prefs {
            summon_effect: from_key(self.summon_effect),
            window_mode: mode_of_key(self.window_mode),
            tab_bar_bottom: self.tab_bar_position == "bottom"@,
            focus_autohide: self.flags.focus_autohide,
            scrollback_lines: limit_lines(self.flags.scrollback_lines),
            launch_at_login: autostart,
            show_welcome: self.flags.show_welcome,
            show_perf_hud: self.flags.show_perf_hud,
            notify_on_finish: self.flags.notify_on_command_finish,
            notify_min_seconds: limit_seconds(self.flags.notify_min_seconds),
            notify_only_on_failure: self.flags.notify_only_on_failure,
            auto_summon_on_finish: self.flags.auto_summon_on_finish,
            osc52_allow_paste: self.flags.osc52_allow_paste,
            hot_reload: self.flags.hot_reload,
            fx: self.flags.fx,
        }
    }
}

impl Config {
    fn prefs(&self, autostart: bool) -> (r: Prefs)
        ensures
            r == self@.prefs(autostart),
    {
        Prefs {
            summon_effect: SummonEffect::from_config(self.summon_effect.as_str()),
            window_mode: WindowMode::from_config(self.window_mode.as_str()),
            tab_bar_bottom: str_eq(self.tab_bar_position.as_str(), "bottom"),
            focus_autohide: self.flags.focus_autohide,
            scrollback_lines: clamp_lines(self.flags.scrollback_lines),
            launch_at_login: autostart,
            show_welcome: self.flags.show_welcome,
            show_perf_hud: self.flags.show_perf_hud,
            notify_on_finish: self.flags.notify_on_command_finish,
            notify_min_seconds: clamp_seconds(self.flags.notify_min_seconds),
            notify_only_on_failure: self.flags.notify_only_on_failure,
            auto_summon_on_finish: self.flags.auto_summon_on_finish,
            osc52_allow_paste: self.flags.osc52_allow_paste,
            hot_reload: self.flags.hot_reload,
            fx: self.flags.fx,
        }
    }
}

/// The windows before the first of them exists.
pub open spec fn fresh_presence() -> Presence {
    Presence {
        main_window: None,
        settings_window: None,
        visible: true,
        main_occluded: false,
        main_focused: false,
        last_focused_window: None,
        switching_to_settings: false,
        switching_to_detached: false,
        last_pos: None,
        pending_center_pos: None,
    }
}

fn new_presence() -> (r: Presence)
    ensures
        r == fresh_presence(),
{
    Presence {
        main_window: None,
        settings_window: None,
        visible: true,
        main_occluded: false,
        main_focused: false,
        last_focused_window: None,
        switching_to_settings: false,
        switching_to_detached: false,
        last_pos: None,
        pending_center_pos: None,
    }
}

/// No overlay but the welcome text, where it is wanted.
pub open spec fn fresh_overlays(welcome: bool) -> Overlays {
    Overlays {
        welcome_open: welcome,
        help_open: false,
        confirm_quit: false,
        confirm_close: None,
        renaming: None,
        context_menu: false,
        menu_hover: None,
        tab_menu: None,
        tab_menu_detach: false,
        tab_menu_hover: None,
        palette_open: false,
        search_open: false,
        search_dirty: false,
        copy_mode: None,
    }
}

fn new_overlays(welcome: bool) -> (r: Overlays)
    ensures
        r == fresh_overlays(welcome),
{
    Overlays {
        welcome_open: welcome,
        help_open: false,
        confirm_quit: false,
        confirm_close: None,
        renaming: None,
        context_menu: false,
        menu_hover: None,
        tab_menu: None,
        tab_menu_detach: false,
        tab_menu_hover: None,
        palette_open: false,
        search_open: false,
        search_dirty: false,
        copy_mode: None,
    }
}

/// A pointer that holds nothing.
pub open spec fn fresh_pointer() -> Pointer {
    Pointer {
        selecting: false,
        dragging_scrollbar: false,
        tab_drag: None,
        grabbed: false,
        link_hover: false,
        link_cell: None,
        resize_cursor: ResizeZone::Interior,
        last_strip_click: None,
        shift_hint_until: None,
        shift_hint_cooldown: None,
        dragging_slider: false,
        dragging_radius: false,
        dragging_dropdown: false,
        dragging_dropdown_width: false,
        active_fx_drag: None,
    }
}

fn new_pointer() -> (r: Pointer)
    ensures
        r == fresh_pointer(),
{
    Pointer {
        selecting: false,
        dragging_scrollbar: false,
        tab_drag: None,
        grabbed: false,
        link_hover: false,
        link_cell: None,
        resize_cursor: ResizeZone::Interior,
        last_strip_click: None,
        shift_hint_until: None,
        shift_hint_cooldown: None,
        dragging_slider: false,
        dragging_radius: false,
        dragging_dropdown: false,
        dragging_dropdown_width: false,
        active_fx_drag: None,
    }
}

/// Nothing runs and nothing is scheduled.
pub open spec fn fresh_timers() -> Timers {
    Timers {
        summon_pending: false,
        summon_anim: None,
        slide_anim: None,
        caret_anim: None,
        summon_settle_until: None,
        settings_paint_until: None,
        pending_autohide_at: None,
        reflow_pending_at: None,
        reflow_resized_at: None,
        pending_reload_at: None,
        search_refresh_at: None,
        perf_idle_at: None,
        perf_idle_shown: false,
        pending_dock_frames: 0,
        pending_center_frames: 0,
    }
}

fn new_timers() -> (r: Timers)
    ensures
        r == fresh_timers(),
{
    Timers {
        summon_pending: false,
        summon_anim: None,
        slide_anim: None,
        caret_anim: None,
        summon_settle_until: None,
        settings_paint_until: None,
        pending_autohide_at: None,
        reflow_pending_at: None,
        reflow_resized_at: None,
        pending_reload_at: None,
        search_refresh_at: None,
        perf_idle_at: None,
        perf_idle_shown: false,
        pending_dock_frames: 0,
        pending_center_frames: 0,
    }
}

/// The settings window at its first page, with theme `i` chosen.
pub open spec fn fresh_panel(i: usize) -> Panel {
    Panel {
        settings_tab: 0,
        theme_idx: i,
        theme_dropdown_open: false,
        theme_scroll_offset: 0,
        font_scroll_offset: 0,
        ui_font_scroll_offset: 0,
        reloading: false,
        last_written: None,
    }
}

fn new_panel(i: usize) -> (r: Panel)
    ensures
        r == fresh_panel(i),
{
    Panel {
        settings_tab: 0,
        theme_idx: i,
        theme_dropdown_open: false,
        theme_scroll_offset: 0,
        font_scroll_offset: 0,
        ui_font_scroll_offset: 0,
        reloading: false,
        last_written: None,
    }
}

/// Nothing is owed.
pub open spec fn nothing_due() -> Due {
    Due {
        exit: false,
        paint_main: false,
        paint_settings: false,
        paint_detached: false,
        persist: false,
        relink: false,
        restyle: false,
        reflow: false,
        reload: false,
        redock: false,
        reset_scroll: false,
        fit: None,
        search_clear: None,
        search_refresh: None,
        selection_clear: None,
        window: None,
        cursor: None,
        calm: false,
        rescroll: false,
        refont: false,
    }
}

fn no_due() -> (r: Due)
    ensures
        r == nothing_due(),
{
    Due {
        exit: false,
        paint_main: false,
        paint_settings: false,
        paint_detached: false,
        persist: false,
        relink: false,
        restyle: false,
        reflow: false,
        reload: false,
        redock: false,
        reset_scroll: false,
        fit: None,
        search_clear: None,
        search_refresh: None,
        selection_clear: None,
        window: None,
        cursor: None,
        calm: false,
        rescroll: false,
        refont: false,
    }
}

/// The theme to start with: the configured one where it exists, else the one
/// that the environment names, else the first.
pub open spec fn first_theme(env: Option<usize>, cfg: Option<usize>) -> usize {
    match (cfg, env) {
        (Some(i), _) => i,
        (None, Some(i)) => i,
        (None, None) => 0,
    }
}

impl AppView {
    /// The application as it starts with the configuration `c` and theme `i`.
    pub open spec fn starts(self, c: ConfigView, i: usize, autostart: bool, rows: u32) -> bool {
        let prefs = c.prefs(autostart);
        &&& self.tabs.len() == 0
        &&& self.active == 0
        &&& self.detached.len() == 0
        &&& self.rename_buf.len() == 0
        &&& self.palette == (PaletteView {
            query: seq![],
            hits: seq![],
            selected: 0,
            scroll: 0,
            rows: rows as int,
        })
        &&& self.hint is None
        &&& self.text == (TextPrefsView {
            summon_hotkey: c.summon_hotkey,
            shell: c.shell,
            font_family: c.font_family,
            ui_font_family: c.ui_font_family,
            font_families: seq![],
            ui_font_families: seq![],
        })
        &&& self.st == (Stage {
            presence: fresh_presence(),
            ui: fresh_overlays(prefs.show_welcome),
            pointer: fresh_pointer(),
            timers: fresh_timers(),
            prefs,
            panel: fresh_panel(i),
            due: nothing_due(),
        }).apply_theme()
    }
}

impl App {
    /// Starts from the configuration. `env_theme` and `cfg_theme` are the
    /// themes that the environment and the configuration name, `autostart`
    /// tells whether the application starts at login, and the palette shows
    /// `rows` rows.
    pub fn new(
        c: Config,
        env_theme: Option<usize>,
        cfg_theme: Option<usize>,
        autostart: bool,
        rows: u32,
    ) -> (r: App)
        requires
            rows >= 1,
        ensures
            r@.starts(c@, first_theme(env_theme, cfg_theme), autostart, rows),
            r@.wf(),
    {
        let theme: usize = match (cfg_theme, env_theme) {
            (Some(i), _) => i,
            (None, Some(i)) => i,
            (None, None) => 0,
        };
        let prefs: Prefs = c.prefs(autostart);
        let st: Stage = (Stage {
            presence: new_presence(),
            ui: new_overlays(prefs.show_welcome),
            pointer: new_pointer(),
            timers: new_timers(),
            prefs,
            panel: new_panel(theme),
            due: no_due(),
        }).apply_theme();
        let palette: Palette = Palette {
            query: String::new(),
            hits: Vec::new(),
            selected: 0,
            scroll: 0,
            rows,
        };
        let text: TextPrefs = TextPrefs {
            summon_hotkey: c.summon_hotkey,
            shell: c.shell,
            font_family: c.font_family,
            ui_font_family: c.ui_font_family,
            font_families: Vec::new(),
            ui_font_families: Vec::new(),
        };
        proof {
            reveal(hint_view);
            assert(palette@.query =~= Seq::<char>::empty());
            assert(palette@.hits =~= seq![]);
            assert(text@.font_families =~= seq![]);
            assert(text@.ui_font_families =~= seq![]);
        }
        App {
            tabs: Vec::new(),
            active: 0,
            detached: Vec::new(),
            rename_buf: String::new(),
            palette,
            hint: None,
            text,
            st,
        }
    }
}

impl AppView {
    /// The configuration that is written down.
    pub open spec fn config(self) -> ConfigView {
        let p = self.st.prefs;
        ConfigView {
            font_family: self.text.font_family,
            ui_font_family: self.text.ui_font_family,
            summon_effect: p.summon_effect.key(),
            window_mode: p.window_mode.key(),
            tab_bar_position: if p.tab_bar_bottom {
                "bottom"@
            } else {
                "top"@
            },
            summon_hotkey: self.text.summon_hotkey,
            shell: self.text.shell,
            flags: p.flags(),
        }
    }
}

impl Prefs {
    /// The switches and whole numbers as they are written down.
    pub open spec fn flags(self) -> ConfigFlags {
        ConfigFlags {
            focus_autohide: self.focus_autohide,
            launch_at_login: self.launch_at_login,
            scrollback_lines: self.scrollback_lines,
            show_welcome: self.show_welcome,
            show_perf_hud: self.show_perf_hud,
            fx: self.fx,
            notify_on_command_finish: self.notify_on_finish,
            notify_min_seconds: self.notify_min_seconds,
            notify_only_on_failure: self.notify_only_on_failure,
            auto_summon_on_finish: self.auto_summon_on_finish,
            osc52_allow_paste: self.osc52_allow_paste,
            hot_reload: self.hot_reload,
        }
    }

    fn config_flags(self) -> (r: ConfigFlags)
        ensures
            r == self.flags(),
    {
        ConfigFlags {
            focus_autohide: self.focus_autohide,
            launch_at_login: self.launch_at_login,
            scrollback_lines: self.scrollback_lines,
            show_welcome: self.show_welcome,
            show_perf_hud: self.show_perf_hud,
            fx: self.fx,
            notify_on_command_finish: self.notify_on_finish,
            notify_min_seconds: self.notify_min_seconds,
            notify_only_on_failure: self.notify_only_on_failure,
            auto_summon_on_finish: self.auto_summon_on_finish,
            osc52_allow_paste: self.osc52_allow_paste,
            hot_reload: self.hot_reload,
        }
    }
}

impl App {
    /// The configuration to write down; `None` while a reload is under way.
    pub fn persist(&self) -> (r: Option<Config>)
        ensures
            r is None <==> self@.st.panel.reloading,
            r matches Some(c) ==> c@ == self@.config(),
    {
        if self.st.panel.reloading {
            return None;
        }
        let p: Prefs = self.st.prefs;
        let side: &str = if p.tab_bar_bottom {
            "bottom"
        } else {
            "top"
        };
        Some(
            Config {
                font_family: self.text.font_family.clone(),
                ui_font_family: self.text.ui_font_family.clone(),
                summon_effect: p.summon_effect.to_config().to_owned(),
                window_mode: p.window_mode.to_config().to_owned(),
                tab_bar_position: side.to_owned(),
                summon_hotkey: self.text.summon_hotkey.clone(),
                shell: self.text.shell.clone(),
                flags: p.config_flags(),
            },
        )
    }
}

/// What is written down is read back: the settings after a restart are those
/// before it.
pub proof fn law_config_reads_back(v: AppView)
    requires
        SCROLLBACK_MIN <= v.st.prefs.scrollback_lines <= SCROLLBACK_MAX,
        1 <= v.st.prefs.notify_min_seconds <= NOTIFY_MAX_SECONDS,
    ensures
        v.config().prefs(v.st.prefs.launch_at_login) == v.st.prefs,
        v.config().summon_hotkey == v.text.summon_hotkey,
        v.config().shell == v.text.shell,
        v.config().font_family == v.text.font_family,
        v.config().ui_font_family == v.text.ui_font_family,
{
    crate::effect::law_effect_round_trip(v.st.prefs.summon_effect);
    crate::mode::law_mode_round_trip(v.st.prefs.window_mode);
    reveal_strlit("bottom");
    reveal_strlit("top");
    assert("bottom"@.len() == 6 && "top"@.len() == 3);
}

/// However wild the configuration is, the settings that come from it lie within
/// their bounds.
pub proof fn law_config_is_bounded(c: ConfigView, autostart: bool)
    ensures
        SCROLLBACK_MIN <= c.prefs(autostart).scrollback_lines <= SCROLLBACK_MAX,
        1 <= c.prefs(autostart).notify_min_seconds <= NOTIFY_MAX_SECONDS,
{
}

/// The scrollback holds between a hundred and a hundred thousand lines, the
/// shortest run that notifies lies between a second and a day; what lies
/// within is kept.
pub proof fn law_limits_keep_what_fits(lines: usize, seconds: u64)
    ensures
        100 <= lines <= 100_000 ==> limit_lines(lines) == lines,
        lines < 100 ==> limit_lines(lines) == 100,
        lines > 100_000 ==> limit_lines(lines) == 100_000,
        1 <= seconds <= 86_400 ==> limit_seconds(seconds) == seconds,
        seconds < 1 ==> limit_seconds(seconds) == 1,
        seconds > 86_400 ==> limit_seconds(seconds) == 86_400,
{
}

/// Each setting starts as the configuration has it; whether the program starts
/// at login is what the system says.
pub proof fn law_configured_settings_are_used(c: ConfigView, autostart: bool)
    ensures
        ({
            let p = c.prefs(autostart);
            &&& p.focus_autohide == c.flags.focus_autohide
            &&& p.launch_at_login == autostart
            &&& p.show_welcome == c.flags.show_welcome
            &&& p.show_perf_hud == c.flags.show_perf_hud
            &&& p.notify_on_finish == c.flags.notify_on_command_finish
            &&& p.notify_only_on_failure == c.flags.notify_only_on_failure
            &&& p.auto_summon_on_finish == c.flags.auto_summon_on_finish
            &&& p.osc52_allow_paste == c.flags.osc52_allow_paste
            &&& p.hot_reload == c.flags.hot_reload
            &&& p.fx == c.flags.fx
            &&& c.tab_bar_position == "bottom"@ ==> p.tab_bar_bottom
            &&& c.tab_bar_position != "bottom"@ ==> !p.tab_bar_bottom
            &&& 100 <= c.flags.scrollback_lines <= 100_000 ==> p.scrollback_lines
                == c.flags.scrollback_lines
            &&& 1 <= c.flags.notify_min_seconds <= 86_400 ==> p.notify_min_seconds
                == c.flags.notify_min_seconds
        }),
{
}

/// Each setting is written under its own name.
pub proof fn law_settings_are_written(v: AppView)
    ensures
        ({
            let p = v.st.prefs;
            let c = v.config();
            &&& c.flags.focus_autohide == p.focus_autohide
            &&& c.flags.launch_at_login == p.launch_at_login
            &&& c.flags.scrollback_lines == p.scrollback_lines
            &&& c.flags.show_welcome == p.show_welcome
            &&& c.flags.show_perf_hud == p.show_perf_hud
            &&& c.flags.fx == p.fx
            &&& c.flags.notify_on_command_finish == p.notify_on_finish
            &&& c.flags.notify_min_seconds == p.notify_min_seconds
            &&& c.flags.notify_only_on_failure == p.notify_only_on_failure
            &&& c.flags.auto_summon_on_finish == p.auto_summon_on_finish
            &&& c.flags.osc52_allow_paste == p.osc52_allow_paste
            &&& c.flags.hot_reload == p.hot_reload
            &&& p.tab_bar_bottom ==> c.tab_bar_position == "bottom"@
            &&& !p.tab_bar_bottom ==> c.tab_bar_position == "top"@
        }),
{
}

/// The program starts shown, with no window yet, nothing open but the welcome
/// where it is wanted, nothing held, nothing under way, and only the theme to
/// apply.
pub proof fn law_program_starts_clean(v: AppView, c: ConfigView, i: usize, autostart: bool, rows: u32)
    requires
        v.starts(c, i, autostart, rows),
    ensures
        v.tabs.len() == 0 && v.detached.len() == 0 && v.hint is None,
        v.st.presence.visible && v.st.presence.main_window is None && v.st.presence.settings_window
            is None && v.st.presence.last_focused_window is None && !v.st.presence.main_focused
            && !v.st.presence.main_occluded,
        v.st.ui.welcome_open == c.flags.show_welcome,
        !v.st.ui.help_open && !v.st.ui.confirm_quit && v.st.ui.confirm_close is None
            && v.st.ui.renaming is None && !v.st.ui.context_menu && v.st.ui.tab_menu is None
            && !v.st.ui.palette_open && !v.st.ui.search_open && v.st.ui.copy_mode is None,
        v.st.panel.theme_idx == i && v.st.panel.settings_tab == 0
            && !v.st.panel.theme_dropdown_open && !v.st.panel.reloading
            && v.st.panel.last_written is None,
        v.palette.rows == rows && v.palette.hits.len() == 0 && v.palette.query.len() == 0,
        v.text.shell == c.shell && v.text.summon_hotkey == c.summon_hotkey && v.text.font_family
            == c.font_family && v.text.ui_font_family == c.ui_font_family,
        v.st.due.restyle && v.st.due.paint_detached && !v.st.due.exit && !v.st.due.persist
            && !v.st.due.paint_main && !v.st.due.reload,
{
}

/// Nothing is held by the pointer and no clock runs at the start.
pub proof fn law_program_starts_at_rest(v: AppView, c: ConfigView, i: usize, autostart: bool, rows: u32)
    requires
        v.starts(c, i, autostart, rows),
    ensures
        ({
            let p = v.st.pointer;
            let t = v.st.timers;
            &&& !p.selecting && !p.dragging_scrollbar && p.tab_drag is None && !p.grabbed
                && !p.link_hover && p.shift_hint_until is None && p.shift_hint_cooldown is None
                && p.last_strip_click is None
            &&& !p.dragging_slider && !p.dragging_radius && !p.dragging_dropdown
                && !p.dragging_dropdown_width && p.active_fx_drag is None
            &&& p.resize_cursor == ResizeZone::Interior
            &&& !t.summon_pending && t.summon_anim is None && t.slide_anim is None && t.caret_anim
                is None && t.pending_autohide_at is None && t.reflow_pending_at is None
                && t.pending_reload_at is None && t.search_refresh_at is None
                && t.summon_settle_until is None && t.settings_paint_until is None
            &&& t.pending_dock_frames == 0 && t.pending_center_frames == 0
                && !t.perf_idle_shown && t.perf_idle_at is None
        }),
{
}

/// The theme that the configuration names wins over the one that the
/// environment names; with neither it is the first.
pub proof fn law_configured_theme_wins(env: Option<usize>, cfg: Option<usize>)
    ensures
        cfg matches Some(i) ==> first_theme(env, cfg) == i,
        cfg is None ==> (env matches Some(i) ==> first_theme(env, cfg) == i),
        cfg is None && env is None ==> first_theme(env, cfg) == 0,
{
}

/// Nothing but the theme is due at the start.
pub proof fn law_program_starts_with_nothing_due(v: AppView, c: ConfigView, i: usize, autostart: bool, rows: u32)
    requires
        v.starts(c, i, autostart, rows),
    ensures
        ({
            let d = v.st.due;
            &&& !d.paint_settings && !d.relink && !d.reflow && !d.redock && !d.reset_scroll
                && !d.calm && !d.rescroll && !d.refont
            &&& d.fit is None && d.search_clear is None && d.search_refresh is None
                && d.selection_clear is None && d.window is None && d.cursor is None
            &&& !v.st.presence.switching_to_settings && !v.st.presence.switching_to_detached
                && v.st.presence.last_pos is None && v.st.presence.pending_center_pos is None
            &&& v.st.ui.menu_hover is None && v.st.ui.tab_menu_hover is None
                && !v.st.ui.tab_menu_detach && !v.st.ui.search_dirty
            &&& v.st.panel.theme_scroll_offset == 0 && v.st.panel.font_scroll_offset == 0
                && v.st.panel.ui_font_scroll_offset == 0
            &&& v.st.timers.reflow_resized_at is None && v.st.pointer.link_cell is None
        }),
{
}

} // verus!
