use jetty_app::config::{Config, ConfigFlags, SCROLLBACK_MAX, SCROLLBACK_MIN};
use jetty_app::effect::SummonEffect;
use jetty_app::input::{Ask, Slider};
use jetty_app::mode::WindowMode;
use jetty_app::panel::{List, PanelEvent, SettingsAction, Switch};
use jetty_app::presence::Env;
use jetty_app::reload::{Differs, Reloaded, Taken};
use jetty_app::settings::{max_scroll, MAX_THEME_ROWS};
use jetty_app::startup::{effective_hotkey, hotkey_to_register, pick_font};
use jetty_app::state::{App, FxSlider, FxToggles};
use jetty_app::zone::Monitor;

fn config() -> Config {
    Config {
        font_family: "JetBrains Mono".to_string(),
        ui_font_family: String::new(),
        summon_effect: "bayer".to_string(),
        window_mode: "center".to_string(),
        tab_bar_position: "top".to_string(),
        summon_hotkey: "F9".to_string(),
        shell: String::new(),
        flags: ConfigFlags {
            focus_autohide: true,
            launch_at_login: false,
            scrollback_lines: 10_000,
            show_welcome: false,
            show_perf_hud: false,
            fx: FxToggles {
                crt_enabled: false,
                crt_animate_roll: false,
                crt_flicker: false,
                crt_jitter: false,
                caret_flash_enabled: false,
                caret_glow_enabled: false,
            },
            notify_on_command_finish: true,
            notify_min_seconds: 10,
            notify_only_on_failure: false,
            auto_summon_on_finish: false,
            osc52_allow_paste: false,
            hot_reload: true,
        },
    }
}

fn env(now: u64) -> Env {
    Env {
        now,
        outer_pos: Some((40, 50)),
        monitors: vec![Monitor { x: 0, y: 0, width: 1920, height: 1080 }],
        grid_ready: true,
    }
}

/// An application with the main window 1 and `n` tabs, named 10, 11 and so on;
/// the last one is active and nothing is due.
fn app(n: u64) -> App {
    let mut a = App::new(config(), None, None, false, 8);
    let idle = a.st.due;
    a.window_opened(1, true, 0);
    a.first_shell(Some(10));
    for i in 1..n {
        a.new_tab(10 + i);
    }
    a.st.timers.summon_pending = false;
    a.st.timers.summon_settle_until = None;
    a.st.timers.pending_center_frames = 0;
    a.st.timers.pending_dock_frames = 0;
    a.st.due = idle;
    a
}

fn ids(a: &App) -> Vec<u64> {
    a.tabs.iter().map(|t| t.id).collect()
}

fn same() -> Differs {
    Differs {
        opacity: false,
        font_size: false,
        ui_font_size: false,
        corner_radius: false,
        dropdown_height: false,
        dropdown_width: false,
        effects: false,
        keys: false,
    }
}

fn reloaded(config: Config) -> Reloaded {
    Reloaded { config, theme: None, differs: same() }
}

fn shells() -> Vec<String> {
    vec!["/bin/bash".to_string(), "/bin/zsh".to_string()]
}

fn act(a: &mut App, action: SettingsAction) -> Ask {
    a.st.due.persist = false;
    a.handle_settings_action(action, 12, &shells(), &env(1_000))
}

#[test]
fn the_configuration_reads_back_as_it_was() {
    let mut c = config();
    c.summon_effect = "focus".to_string();
    c.window_mode = "dropdown".to_string();
    c.tab_bar_position = "bottom".to_string();
    c.shell = "/bin/zsh".to_string();
    let a = App::new(c, None, None, true, 8);
    assert!(a.st.prefs.tab_bar_bottom && a.st.prefs.launch_at_login);
    let out = a.persist().expect("nothing is being read back");
    assert_eq!(out.summon_effect, "focus");
    assert_eq!(out.window_mode, "dropdown");
    assert_eq!(out.tab_bar_position, "bottom");
    assert_eq!(out.shell, "/bin/zsh");
    assert_eq!(out.summon_hotkey, "F9");
    assert_eq!(out.font_family, "JetBrains Mono");
    assert!(out.flags.launch_at_login);
    assert_eq!(out.flags.scrollback_lines, 10_000);
}

#[test]
fn limits_hold_whatever_the_file_says() {
    let mut c = config();
    c.flags.scrollback_lines = 1;
    c.flags.notify_min_seconds = 0;
    let a = App::new(c, None, None, false, 8);
    assert_eq!(a.st.prefs.scrollback_lines, SCROLLBACK_MIN);
    assert_eq!(a.st.prefs.notify_min_seconds, 1);
    let mut c = config();
    c.flags.scrollback_lines = usize::MAX;
    c.flags.notify_min_seconds = u64::MAX;
    let a = App::new(c, None, None, false, 8);
    assert_eq!(a.st.prefs.scrollback_lines, SCROLLBACK_MAX);
    assert_eq!(a.st.prefs.notify_min_seconds, 86_400);
}

#[test]
fn the_file_chooses_the_theme_before_the_environment() {
    assert_eq!(App::new(config(), Some(3), Some(5), false, 8).st.panel.theme_idx, 5);
    assert_eq!(App::new(config(), Some(3), None, false, 8).st.panel.theme_idx, 3);
    assert_eq!(App::new(config(), None, None, false, 8).st.panel.theme_idx, 0);
}

#[test]
fn nothing_is_written_while_the_file_is_followed() {
    let mut a = app(1);
    a.st.panel.reloading = true;
    assert!(a.persist().is_none());
}

#[test]
fn own_writes_are_recognised_by_their_text() {
    let mut a = app(1);
    assert!(a.is_foreign("theme = 1\n"));
    a.config_written("theme = 1\n");
    assert!(!a.is_foreign("theme = 1\n"));
    assert!(a.is_foreign("theme = 2\n"));
}

#[test]
fn an_own_write_is_not_read_back() {
    let mut a = app(1);
    a.config_written("mine");
    let mut c = config();
    c.summon_effect = "none".to_string();
    a.reload_config_and_themes(Some(0), 12, Some("mine"), Some(reloaded(c)), &env(5));
    assert_eq!(a.st.prefs.summon_effect, SummonEffect::Bayer);
    let mut c = config();
    c.summon_effect = "none".to_string();
    a.reload_config_and_themes(Some(0), 12, Some("theirs"), Some(reloaded(c)), &env(5));
    assert_eq!(a.st.prefs.summon_effect, SummonEffect::Plain);
    assert!(!a.is_foreign("theirs"));
    assert!(!a.st.due.persist);
}

#[test]
fn a_file_that_does_not_parse_changes_nothing() {
    let mut a = app(1);
    let t = a.reload_config_and_themes(Some(2), 12, Some("broken ["), None, &env(5));
    assert!(!t.opacity && !t.keys && !t.osc52);
    assert_eq!(a.st.prefs.summon_effect, SummonEffect::Bayer);
}

#[test]
fn a_changed_file_is_followed() {
    let mut a = app(1);
    let mut c = config();
    c.window_mode = "dropdown".to_string();
    c.tab_bar_position = "bottom".to_string();
    c.flags.focus_autohide = false;
    c.flags.scrollback_lines = 5_000;
    c.flags.osc52_allow_paste = true;
    c.flags.hot_reload = false;
    c.flags.launch_at_login = true;
    c.shell = "/bin/fish".to_string();
    c.summon_hotkey = "F10".to_string();
    let r = Reloaded {
        config: c,
        theme: Some(4),
        differs: Differs { opacity: true, keys: true, ..same() },
    };
    a.st.panel.reloading = true;
    let t: Taken = a.apply_reloaded_config(r, &env(5));
    assert!(!a.st.due.persist);
    assert!(t.opacity && t.keys && t.osc52 && t.unwatch && !t.font_size);
    assert_eq!(a.st.prefs.window_mode, WindowMode::Dropdown);
    assert!(a.st.prefs.tab_bar_bottom && !a.st.prefs.focus_autohide);
    assert_eq!(a.st.prefs.scrollback_lines, 5_000);
    assert_eq!(a.st.panel.theme_idx, 4);
    assert_eq!(a.text.shell, "/bin/fish");
    assert!(!a.st.prefs.launch_at_login);
}

fn is_restart_only(key: &str) -> bool {
    matches!(key, "summon_hotkey" | "launch_at_login")
}

/// The configuration with one setting changed.
fn edited(key: &str) -> Reloaded {
    let mut r = reloaded(config());
    match key {
        "theme" => r.theme = Some(7),
        "opacity" => r.differs.opacity = true,
        "font_size" => r.differs.font_size = true,
        "font_family" => r.config.font_family = "Hack".to_string(),
        "ui_font_size" => r.differs.ui_font_size = true,
        "ui_font_family" => r.config.ui_font_family = "Inter".to_string(),
        "corner_radius" => r.differs.corner_radius = true,
        "summon_effect" => r.config.summon_effect = "liquid".to_string(),
        "window_mode" => r.config.window_mode = "dropdown".to_string(),
        "tab_bar_position" => r.config.tab_bar_position = "bottom".to_string(),
        "dropdown_height_pct" => r.differs.dropdown_height = true,
        "dropdown_width_pct" => r.differs.dropdown_width = true,
        "focus_autohide" => r.config.flags.focus_autohide = false,
        "scrollback_lines" => r.config.flags.scrollback_lines = 25_000,
        "show_perf_hud" => r.config.flags.show_perf_hud = true,
        "effects" => r.differs.effects = true,
        "osc52_allow_paste" => r.config.flags.osc52_allow_paste = true,
        "hot_reload" => r.config.flags.hot_reload = false,
        "shell" => r.config.shell = "/bin/zsh".to_string(),
        "show_welcome" => r.config.flags.show_welcome = true,
        "keys" => r.differs.keys = true,
        "launch_at_login" => r.config.flags.launch_at_login = true,
        _ => r.config.summon_hotkey = "F10".to_string(),
    }
    r
}

/// Whether following the edited file changes what the application does.
fn is_followed(key: &str) -> bool {
    let mut a = app(1);
    let t = a.apply_reloaded_config(edited(key), &env(5));
    let p = a.st.prefs;
    a.st.panel.theme_idx == 7
        || t.opacity
        || t.font_size
        || t.ui_font_size
        || t.corner_radius
        || t.dropdown_height
        || t.dropdown_width
        || t.effects
        || t.keys
        || t.osc52
        || t.unwatch
        || a.text.font_family == "Hack"
        || a.text.ui_font_family == "Inter"
        || a.text.shell == "/bin/zsh"
        || p.summon_effect == SummonEffect::Liquid
        || p.window_mode == WindowMode::Dropdown
        || p.tab_bar_bottom
        || !p.focus_autohide
        || p.scrollback_lines == 25_000
        || p.show_perf_hud
        || p.show_welcome
        || p.launch_at_login
}

#[test]
fn live_vs_restart_key_classification() {
    assert!(is_restart_only("summon_hotkey"));
    assert!(is_restart_only("launch_at_login"));
    assert!(!is_followed("summon_hotkey"));
    assert!(!is_followed("launch_at_login"));
    for k in [
        "theme",
        "opacity",
        "font_size",
        "font_family",
        "ui_font_size",
        "ui_font_family",
        "corner_radius",
        "summon_effect",
        "window_mode",
        "tab_bar_position",
        "dropdown_height_pct",
        "dropdown_width_pct",
        "focus_autohide",
        "scrollback_lines",
        "show_perf_hud",
        "effects",
        "osc52_allow_paste",
        "hot_reload",
        "shell",
        "show_welcome",
        "keys",
    ] {
        assert!(!is_restart_only(k), "{k} should be live-appliable");
        assert!(is_followed(k), "{k} should be live-appliable");
    }
}

#[test]
fn a_slider_that_is_held_wins_over_the_file() {
    let mut a = app(1);
    a.st.pointer.dragging_slider = true;
    let r = Reloaded { differs: Differs { opacity: true, ..same() }, ..reloaded(config()) };
    assert!(!a.apply_reloaded_config(r, &env(5)).opacity);
}

#[test]
fn the_panel_flips_and_cycles_what_is_persisted() {
    let mut a = app(1);
    act(&mut a, SettingsAction::Flip(Switch::FocusAutohide));
    assert!(!a.st.prefs.focus_autohide && a.st.due.persist);
    act(&mut a, SettingsAction::Summon(true));
    assert_eq!(a.st.prefs.summon_effect, SummonEffect::Phosphor);
    assert!(a.st.due.persist);
    act(&mut a, SettingsAction::Mode(true));
    assert_eq!(a.st.prefs.window_mode, WindowMode::Dropdown);
    act(&mut a, SettingsAction::TabBar);
    assert!(a.st.prefs.tab_bar_bottom);
    act(&mut a, SettingsAction::Scrollback(true));
    assert_eq!(a.st.prefs.scrollback_lines, 25_000);
    assert!(a.st.due.rescroll);
    act(&mut a, SettingsAction::NotifyMin(true));
    assert_eq!(a.st.prefs.notify_min_seconds, 30);
    act(&mut a, SettingsAction::Shell(true));
    assert_eq!(a.text.shell, "/bin/bash");
    act(&mut a, SettingsAction::Shell(false));
    assert_eq!(a.text.shell, "");
    assert!(a.opt_shell().is_none());
    act(&mut a, SettingsAction::SetTheme(3));
    assert_eq!(a.st.panel.theme_idx, 3);
    assert!(a.st.due.restyle);
    act(&mut a, SettingsAction::Page(1));
    assert_eq!(a.st.panel.settings_tab, 1);
    let ask = act(&mut a, SettingsAction::Flip(Switch::LaunchAtLogin));
    assert!(matches!(ask, Ask::SetAutostart(true)));
    assert!(matches!(act(&mut a, SettingsAction::FontPlus), Ask::FontUp));
}

#[test]
fn sliders_persist_when_they_are_let_go() {
    let mut a = app(1);
    a.st = a.st.settings_opened(3, 0);
    let ask = act(&mut a, SettingsAction::Drag(Slider::Opacity));
    assert!(matches!(ask, Ask::Slide(Slider::Opacity)));
    assert!(a.st.pointer.dragging_slider);
    assert_eq!(a.st.pointer.held_sliders(), vec![Slider::Opacity]);
    a.st.due.persist = false;
    a.settings_window_event(PanelEvent::Released, 5);
    assert!(!a.st.pointer.dragging_slider && a.st.due.persist);
    act(&mut a, SettingsAction::Drag(Slider::Fx(FxSlider::TintG)));
    assert_eq!(a.st.pointer.active_fx_drag, Some(FxSlider::TintG));
    a.st.pointer.dragging_radius = true;
    let held = vec![Slider::Radius, Slider::Fx(FxSlider::TintG)];
    assert_eq!(a.st.pointer.held_sliders(), held);
    a.settings_window_event(PanelEvent::Unfocused, 6);
    assert_eq!(a.st.pointer.active_fx_drag, None);
    assert!(a.st.pointer.held_sliders().is_empty());
}

#[test]
fn lists_scroll_and_stay_full() {
    assert_eq!(max_scroll(12, MAX_THEME_ROWS), 3);
    assert_eq!(max_scroll(3, MAX_THEME_ROWS), 0);
    let mut a = app(1);
    a.st.panel.theme_idx = 11;
    act(&mut a, SettingsAction::ToggleThemes);
    assert!(a.st.panel.theme_dropdown_open);
    assert_eq!(a.st.panel.theme_scroll_offset, 3);
    act(&mut a, SettingsAction::ThemeRow(false));
    assert_eq!(a.st.panel.theme_scroll_offset, 3);
    act(&mut a, SettingsAction::ThemeRow(true));
    assert_eq!(a.st.panel.theme_scroll_offset, 2);
    a.fonts_found((0..7).map(|i| format!("Font {i}")).collect());
    for top in [1, 2, 2] {
        a.settings_wheel(-1, Some(List::Fonts), 12);
        assert_eq!(a.st.panel.font_scroll_offset, top);
    }
    a.settings_wheel(0, Some(List::Fonts), 12);
    a.settings_wheel(1, Some(List::Fonts), 12);
    assert_eq!(a.st.panel.font_scroll_offset, 1);
}

#[test]
fn fonts_are_chosen_among_those_installed() {
    let fonts = vec!["Fira Code".to_string(), "Hack".to_string()];
    assert_eq!(pick_font(&fonts, "Hack"), "Hack");
    assert_eq!(pick_font(&fonts, "Gone"), "Fira Code");
    assert_eq!(pick_font(&Vec::new(), "Gone"), "Gone");
    let mut a = app(1);
    a.fonts_found(fonts);
    assert_eq!(a.text.font_family, "Fira Code");
    a.ui_fonts_found(vec!["Inter".to_string()]);
    assert_eq!(a.text.ui_font_families.len(), 2);
    a.set_font_family("Hack".to_string(), &env(5));
    assert_eq!(a.text.font_family, "Hack");
    assert!(a.st.due.refont && a.st.due.persist);
    a.set_ui_font_family("Inter".to_string());
    assert_eq!(a.text.ui_font_family, "Inter");
}

#[test]
fn a_hotkey_that_is_none_falls_back() {
    assert_eq!(effective_hotkey("F9"), "F9");
    assert_eq!(effective_hotkey("Ctrl+Shift+F12"), "Ctrl+Shift+F12");
    assert_eq!(effective_hotkey("no key at all"), "F9");
    assert_eq!(effective_hotkey(""), "F9");
    assert_eq!(hotkey_to_register("Alt+K", true), "Alt+K");
    assert_eq!(hotkey_to_register("Alt+K", false), "F9");
}

#[test]
fn a_mode_that_is_set_already_costs_nothing() {
    let a = app(1);
    let s = a.st.set_summon_effect(SummonEffect::Bayer);
    assert!(!s.due.persist);
    let s = a.st.set_window_mode(WindowMode::Center, 5);
    assert!(!s.due.persist);
    let s = a.st.set_window_mode(WindowMode::Dropdown, 5);
    assert!(s.due.persist);
    assert!(!a.st.redock_if_dropdown().due.redock);
    assert!(s.redock_if_dropdown().due.redock);
}
