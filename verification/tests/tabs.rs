use jetty_app::config::{Config, ConfigFlags};
use jetty_app::detached::DetachedEvent;
use jetty_app::presence::Env;
use jetty_app::state::{App, FxToggles, TabActivity};
use jetty_app::strip::numbered_title;
use jetty_app::text::{push_decimal, push_signed, trimmed};
use jetty_app::titles::BarCache;
use jetty_app::wake::{may_feed, Drained, PTY_DRAIN_BUDGET, REFLOW_ACTIVITY_GRACE};
use jetty_app::windows::{find_window, Route};
use jetty_app::zone::Monitor;

fn config() -> Config {
    Config {
        font_family: "JetBrains Mono".to_string(),
        ui_font_family: String::new(),
        summon_effect: "bayer".to_string(),
        window_mode: "center".to_string(),
        tab_bar_position: "top".to_string(),
        summon_hotkey: "F9".to_string(),
        shell: String::new(),
        flags: ConfigFlags {
            focus_autohide: true,
            launch_at_login: false,
            scrollback_lines: 10_000,
            show_welcome: false,
            show_perf_hud: false,
            fx: FxToggles {
                crt_enabled: false,
                crt_animate_roll: false,
                crt_flicker: false,
                crt_jitter: false,
                caret_flash_enabled: false,
                caret_glow_enabled: false,
            },
            notify_on_command_finish: true,
            notify_min_seconds: 10,
            notify_only_on_failure: false,
            auto_summon_on_finish: false,
            osc52_allow_paste: false,
            hot_reload: true,
        },
    }
}

fn env(now: u64) -> Env {
    Env {
        now,
        outer_pos: Some((40, 50)),
        monitors: vec![Monitor { x: 0, y: 0, width: 1920, height: 1080 }],
        grid_ready: true,
    }
}

/// An application with the main window 1 and `n` tabs, named 10, 11 and so on;
/// the last one is active and nothing is due.
fn app(n: u64) -> App {
    let mut a = App::new(config(), None, None, false, 8);
    let idle = a.st.due;
    a.window_opened(1, true, 0);
    a.first_shell(Some(10));
    for i in 1..n {
        a.new_tab(10 + i);
    }
    a.st.timers.summon_pending = false;
    a.st.timers.summon_settle_until = None;
    a.st.timers.pending_center_frames = 0;
    a.st.timers.pending_dock_frames = 0;
    a.st.due = idle;
    a
}

fn ids(a: &App) -> Vec<u64> {
    a.tabs.iter().map(|t| t.id).collect()
}

#[test]
fn new_tabs_become_active_and_are_numbered() {
    let a = app(3);
    assert_eq!(ids(&a), vec![10, 11, 12]);
    assert_eq!(a.active, 2);
    assert_eq!(a.tabs[0].title, "Tab 1");
    assert_eq!(a.tabs[2].title, "Tab 3");
    assert_eq!(a.active_tab_id(), Some(12));
}

#[test]
fn switching_wraps_and_comes_back() {
    let mut a = app(3);
    a.switch_tab(true);
    assert_eq!(a.active, 0);
    a.switch_tab(false);
    assert_eq!(a.active, 2);
    assert!(a.st.due.paint_main);
    let mut one = app(1);
    one.switch_tab(true);
    assert_eq!(one.active, 0);
}

#[test]
fn selecting_takes_an_index_and_stops_at_the_last_tab() {
    let mut a = app(3);
    a.select_tab(0);
    assert_eq!(a.active, 0);
    a.select_tab(7);
    assert_eq!(a.active, 2);
}

#[test]
fn switching_closes_the_search_of_the_tab_left() {
    let mut a = app(2);
    a.st.ui.search_open = true;
    a.switch_tab(true);
    assert!(!a.st.ui.search_open);
    assert_eq!(a.st.due.search_clear, Some(11));
}

#[test]
fn closing_another_tab_keeps_the_active_one() {
    let mut a = app(3);
    a.st.ui.renaming = Some(1);
    a.rename_buf = "half".to_string();
    a.st.ui.confirm_close = Some(2);
    a.close_tab(0, &env(5));
    assert_eq!(ids(&a), vec![11, 12]);
    assert_eq!(a.active_tab_id(), Some(12));
    assert_eq!(a.st.ui.renaming, Some(0));
    assert_eq!(a.st.ui.confirm_close, Some(1));
    assert_eq!(a.rename_buf, "half");
    assert!(a.st.due.relink && a.st.due.paint_main && !a.st.due.exit);
}

#[test]
fn closing_the_renamed_tab_ends_the_rename() {
    let mut a = app(2);
    a.st.ui.renaming = Some(1);
    a.rename_buf = "half".to_string();
    a.close_tab(1, &env(5));
    assert_eq!(a.st.ui.renaming, None);
    assert_eq!(a.rename_buf, "");
    assert_eq!(a.active, 0);
}

#[test]
fn closing_a_tab_that_is_not_there_changes_nothing() {
    let mut a = app(2);
    a.close_tab(2, &env(5));
    assert_eq!(ids(&a), vec![10, 11]);
    assert!(!a.st.due.paint_main);
}

#[test]
fn closing_the_only_tab_ends_the_application() {
    let mut a = app(1);
    a.close_tab(0, &env(5));
    assert!(a.st.due.exit);
}

#[test]
fn closing_the_last_tab_brings_a_detached_one_back() {
    let mut a = app(2);
    let d = a.detach_tab(1).expect("two tabs");
    a.detach_done(d, 7);
    assert_eq!(a.detached.len(), 1);
    a.close_tab(0, &env(5));
    assert!(!a.st.due.exit);
    assert_eq!(ids(&a), vec![11]);
    assert_eq!(a.active, 0);
    assert!(a.detached.is_empty());
}

#[test]
fn the_last_tab_cannot_be_detached() {
    let mut a = app(1);
    assert!(a.detach_tab(0).is_none());
    assert_eq!(ids(&a), vec![10]);
    let mut b = app(2);
    assert!(b.detach_tab(5).is_none());
    assert_eq!(ids(&b), vec![10, 11]);
}

#[test]
fn a_failed_detach_puts_the_tab_back_where_it_was() {
    let mut a = app(3);
    a.select_tab(1);
    let d = a.detach_tab(1).expect("three tabs");
    assert_eq!(ids(&a), vec![10, 12]);
    a.detach_failed(d);
    assert_eq!(ids(&a), vec![10, 11, 12]);
    assert_eq!(a.active, 1);
}

#[test]
fn a_failed_detach_leaves_the_rename_of_an_earlier_tab_going() {
    let mut a = app(3);
    a.st.ui.renaming = Some(0);
    a.rename_buf = "logs".to_string();
    a.st.ui.confirm_close = Some(1);
    let d = a.detach_tab(2).expect("three tabs");
    a.detach_failed(d);
    assert_eq!(a.st.ui.renaming, Some(0));
    assert_eq!(a.rename_buf, "logs");
    assert_eq!(a.st.ui.confirm_close, Some(1));
}

#[test]
fn a_reattached_tab_comes_last_and_is_active() {
    let mut a = app(3);
    let d = a.detach_tab(0).expect("three tabs");
    a.detach_done(d, 7);
    assert_eq!(a.route(7), Route::Detached(0));
    a.reattach_tab(0, &env(5));
    assert_eq!(ids(&a), vec![11, 12, 10]);
    assert_eq!(a.active_tab_id(), Some(10));
    assert_eq!(a.st.due.fit, Some(10));
    assert_eq!(a.route(7), Route::Nobody);
}

#[test]
fn exited_shells_take_their_tabs_along() {
    let mut a = app(4);
    a.select_tab(2);
    a.close_exited_tabs(&vec![0, 3], &env(5));
    assert_eq!(ids(&a), vec![11, 12]);
    assert_eq!(a.active_tab_id(), Some(12));
    assert!(!a.st.due.exit);
}

#[test]
fn when_every_shell_has_exited_the_application_ends() {
    let mut a = app(2);
    assert!(a.close_exited_tabs(&vec![], &env(5)));
    assert!(!a.close_exited_tabs(&vec![0, 1], &env(5)));
    assert!(a.st.due.exit);
}

#[test]
fn a_detached_window_saves_the_application_from_ending() {
    let mut a = app(2);
    let d = a.detach_tab(0).expect("two tabs");
    a.detach_done(d, 7);
    a.close_exited_tabs(&vec![0], &env(5));
    assert!(!a.st.due.exit);
    assert_eq!(ids(&a), vec![10]);
}

fn quiet() -> Drained {
    Drained { had: false, title: None, rang: false, exited: false }
}

#[test]
fn output_in_the_background_lights_a_tab() {
    let mut a = app(2);
    let s = a.drain_pty(&vec![Drained { had: true, ..quiet() }, quiet()], 1_000_000_000);
    assert!(!s.active_had && s.chrome_changed);
    assert_eq!(a.tabs[0].activity, TabActivity::Output);
    assert_eq!(a.tabs[1].activity, TabActivity::Idle);
    a.select_tab(0);
    assert_eq!(a.tabs[0].activity, TabActivity::Output);
    assert!(a.begin_frame(false, 1_000_000_001).draw);
    a.frame_drained(false, 1_000_000_002);
    assert_eq!(a.tabs[0].activity, TabActivity::Idle);
}

#[test]
fn the_bell_outlasts_output() {
    let mut a = app(2);
    a.drain_pty(&vec![Drained { rang: true, had: true, ..quiet() }, quiet()], 1_000_000_000);
    a.drain_pty(&vec![Drained { had: true, ..quiet() }, quiet()], 1_000_000_000);
    assert_eq!(a.tabs[0].activity, TabActivity::Bell);
}

#[test]
fn output_right_after_a_reflow_lights_nothing() {
    let mut a = app(2);
    a.st.timers.reflow_resized_at = Some(1_000_000_000);
    a.drain_pty(
        &vec![Drained { had: true, ..quiet() }, quiet()],
        1_000_000_000 + REFLOW_ACTIVITY_GRACE - 1,
    );
    assert_eq!(a.tabs[0].activity, TabActivity::Idle);
    a.drain_pty(
        &vec![Drained { had: true, ..quiet() }, quiet()],
        1_000_000_000 + REFLOW_ACTIVITY_GRACE,
    );
    assert_eq!(a.tabs[0].activity, TabActivity::Output);
}

#[test]
fn titles_come_from_the_shell_until_the_user_names_the_tab() {
    let mut a = app(1);
    a.drain_pty(&vec![Drained { title: Some(Some("vim".to_string())), ..quiet() }], 1);
    assert_eq!(a.tabs[0].title, "vim");
    a.drain_pty(&vec![Drained { title: Some(None), ..quiet() }], 1);
    assert_eq!(a.tabs[0].title, "Tab 1");
    a.st.ui.renaming = Some(0);
    a.rename_buf = "  build  ".to_string();
    a.commit_rename();
    assert_eq!(a.tabs[0].title, "build");
    assert!(a.tabs[0].manually_renamed);
    assert_eq!(a.st.ui.renaming, None);
    assert_eq!(a.rename_buf, "");
    a.drain_pty(&vec![Drained { title: Some(Some("vim".to_string())), ..quiet() }], 1);
    assert_eq!(a.tabs[0].title, "build");
}

#[test]
fn an_empty_name_is_no_name() {
    let mut a = app(1);
    a.st.ui.renaming = Some(0);
    a.rename_buf = "   ".to_string();
    a.commit_rename();
    assert_eq!(a.tabs[0].title, "Tab 1");
    assert!(!a.tabs[0].manually_renamed);
    assert_eq!(a.st.ui.renaming, None);
}

#[test]
fn a_quiet_wake_paints_nothing() {
    let mut a = app(2);
    assert!(a.wake_main(&vec![quiet(), quiet()], &env(5)));
    assert!(!a.st.due.paint_main);
    a.st.presence.visible = false;
    a.wake_main(&vec![quiet(), Drained { had: true, ..quiet() }], &env(5));
    assert!(!a.st.due.paint_main);
    a.st.presence.visible = true;
    a.wake_main(&vec![quiet(), Drained { had: true, ..quiet() }], &env(5));
    assert!(a.st.due.paint_main);
}

#[test]
fn an_exit_in_a_detached_window_closes_that_window_only() {
    let mut a = app(3);
    for w in [7, 8] {
        let d = a.detach_tab(0).expect("tabs are left");
        a.detach_done(d, w);
    }
    a.st.presence.last_focused_window = Some(7);
    a.wake_detached(&vec![Drained { exited: true, ..quiet() }, quiet()]);
    assert_eq!(a.detached.len(), 1);
    assert_eq!(a.detached[0].window, 8);
    assert!(!a.st.due.exit);
    assert_eq!(a.st.presence.last_focused_window, None);
}

#[test]
fn feeding_stops_at_the_budget() {
    assert!(may_feed(0));
    assert!(may_feed(PTY_DRAIN_BUDGET - 1));
    assert!(!may_feed(PTY_DRAIN_BUDGET));
}

#[test]
fn windows_answer_only_to_their_own_events() {
    let mut a = app(2);
    a.st.presence.settings_window = Some(3);
    let d = a.detach_tab(0).expect("two tabs");
    a.detach_done(d, 7);
    assert_eq!(a.route(1), Route::Main);
    assert_eq!(a.route(3), Route::Settings);
    assert_eq!(a.route(7), Route::Detached(0));
    assert_eq!(a.route(99), Route::Nobody);
    assert_eq!(find_window(&a.detached, 7), Some(0));
    assert_eq!(find_window(&a.detached, 1), None);
}

#[test]
fn closing_a_detached_window_returns_its_tab() {
    let mut a = app(2);
    let d = a.detach_tab(0).expect("two tabs");
    a.detach_done(d, 7);
    a.detached_window_event(0, DetachedEvent::CloseRequested, &env(5));
    assert!(a.detached.is_empty());
    assert_eq!(ids(&a), vec![11, 10]);
    assert_eq!(a.active_tab_id(), Some(10));
}

#[test]
fn labels_and_the_window_title_name_the_tab() {
    let mut a = app(2);
    a.tabs[1].title = "htop".to_string();
    assert!(a.main_tab_label(1).contains("htop"));
    assert!(a.os_title().contains("htop"));
    let mut cache = BarCache { meta: Vec::new(), filled: false, os_title: String::new() };
    let first = a.tabs_meta(&mut cache, true);
    assert_eq!(first, Some(a.os_title()));
    assert!(cache.filled);
    assert_eq!(cache.meta.len(), 2);
    assert_eq!(a.tabs_meta(&mut cache, true), None);
}

#[test]
fn numbers_are_written_in_decimal() {
    assert_eq!(numbered_title(1), "Tab 1");
    assert_eq!(numbered_title(1203), "Tab 1203");
    let mut s = String::from("x");
    push_decimal(&mut s, 0);
    push_signed(&mut s, -17);
    push_signed(&mut s, i32::MIN);
    assert_eq!(s, "x0-17-2147483648");
    assert_eq!(trimmed(" \t a b\n"), "a b");
}
