use jetty_app::actions::REFLOW_DELAY;
use jetty_app::config::{Config, ConfigFlags};
use jetty_app::detached::DetachedEvent;
use jetty_app::events::AppEvent;
use jetty_app::mode::WindowMode;
use jetty_app::notify::{
    attention_for, build_notification_text, detached_label, pick_summon, Attention,
    CommandCompletion, NotifyKey, NotifyLog,
};
use jetty_app::presence::{Env, AUTOHIDE_GRACE, SETTLE_FRAMES, SUMMON_SETTLE};
use jetty_app::schedule::{earliest, elapsed, expired, Flow, SEARCH_REFRESH_INTERVAL};
use jetty_app::state::{App, FxToggles, WindowCmd};
use jetty_app::strip::new_ui;
use jetty_app::wake::RELOAD_DELAY;
use jetty_app::windows::{MainEvent, RESCALE_DELAY};
use jetty_app::zone::Monitor;

fn config() -> Config {
    Config {
        font_family: "JetBrains Mono".to_string(),
        ui_font_family: String::new(),
        summon_effect: "bayer".to_string(),
        window_mode: "center".to_string(),
        tab_bar_position: "top".to_string(),
        summon_hotkey: "F9".to_string(),
        shell: String::new(),
        flags: ConfigFlags {
            focus_autohide: true,
            launch_at_login: false,
            scrollback_lines: 10_000,
            show_welcome: false,
            show_perf_hud: false,
            fx: FxToggles {
                crt_enabled: false,
                crt_animate_roll: false,
                crt_flicker: false,
                crt_jitter: false,
                caret_flash_enabled: false,
                caret_glow_enabled: false,
            },
            notify_on_command_finish: true,
            notify_min_seconds: 10,
            notify_only_on_failure: false,
            auto_summon_on_finish: false,
            osc52_allow_paste: false,
            hot_reload: true,
        },
    }
}

fn env(now: u64) -> Env {
    Env {
        now,
        outer_pos: Some((40, 50)),
        monitors: vec![Monitor { x: 0, y: 0, width: 1920, height: 1080 }],
        grid_ready: true,
    }
}

/// An application with the main window 1 and `n` tabs, named 10, 11 and so on;
/// the last one is active and nothing is due.
fn app(n: u64) -> App {
    let mut a = App::new(config(), None, None, false, 8);
    let idle = a.st.due;
    a.window_opened(1, true, 0);
    a.first_shell(Some(10));
    for i in 1..n {
        a.new_tab(10 + i);
    }
    a.st.timers.summon_pending = false;
    a.st.timers.summon_settle_until = None;
    a.st.timers.pending_center_frames = 0;
    a.st.timers.pending_dock_frames = 0;
    a.st.due = idle;
    a
}

fn ids(a: &App) -> Vec<u64> {
    a.tabs.iter().map(|t| t.id).collect()
}

#[test]
fn a_summoned_window_returns_to_its_spot() {
    let mut a = app(1);
    a.st = a.st.toggle_visibility(&env(5));
    assert!(!a.st.presence.visible);
    assert_eq!(a.st.due.window, Some(WindowCmd::Hide));
    assert_eq!(a.st.presence.last_pos, Some((40, 50)));
    a.st = a.st.toggle_visibility(&env(6));
    assert!(a.st.presence.visible && a.st.timers.summon_pending);
    assert_eq!(a.st.due.window, Some(WindowCmd::ShowAt(40, 50)));
    assert_eq!(a.st.timers.pending_center_frames, SETTLE_FRAMES);
    assert_eq!(a.st.timers.summon_settle_until, Some(6 + SUMMON_SETTLE));
}

#[test]
fn a_spot_on_a_monitor_that_left_is_forgotten() {
    let mut a = app(1);
    a.st = a.st.set_visibility(false, &env(5));
    let gone = Env { monitors: vec![], ..env(6) };
    a.st = a.st.set_visibility(true, &gone);
    assert_eq!(a.st.due.window, Some(WindowCmd::ShowCentered));
    assert_eq!(a.st.presence.last_pos, None);
}

#[test]
fn a_dropdown_docks_and_slides() {
    let mut a = app(1);
    a.st.prefs.window_mode = WindowMode::Dropdown;
    a.st = a.st.set_visibility(false, &env(5));
    a.st = a.st.set_visibility(true, &env(6));
    assert_eq!(a.st.due.window, Some(WindowCmd::ShowDocked));
    assert_eq!(a.st.timers.slide_anim, Some(6));
    assert_eq!(a.st.timers.pending_dock_frames, SETTLE_FRAMES);
}

#[test]
fn showing_a_shown_window_raises_it_and_keeps_it() {
    let mut a = app(1);
    a.st.timers.pending_autohide_at = Some(9);
    a.user_event(AppEvent::SetVisible(true), &env(5));
    assert_eq!(a.st.due.window, Some(WindowCmd::Raise));
    assert_eq!(a.st.timers.pending_autohide_at, None);
    a.user_event(AppEvent::ToggleVisibility, &env(6));
    assert!(!a.st.presence.visible);
}

#[test]
fn losing_the_focus_hides_the_window_after_a_moment() {
    let mut a = app(1);
    a.main_window_event(MainEvent::Focused, 1, 5);
    assert!(a.st.presence.main_focused);
    a.main_window_event(MainEvent::Unfocused, 1, 1_000);
    assert_eq!(a.st.timers.pending_autohide_at, Some(1_000 + AUTOHIDE_GRACE));
    a.service_deadlines(&env(1_000 + AUTOHIDE_GRACE - 1), &vec![None], &vec![]);
    assert!(a.st.presence.visible);
    a.service_deadlines(&env(1_000 + AUTOHIDE_GRACE), &vec![None], &vec![]);
    assert!(!a.st.presence.visible);
    assert_eq!(a.st.timers.pending_autohide_at, None);
}

#[test]
fn the_windows_of_the_application_do_not_hide_it() {
    let mut a = app(2);
    let d = a.detach_tab(0).expect("two tabs");
    a.detach_done(d, 7);
    a.detached_window_event(0, DetachedEvent::Focused, &env(5));
    assert_eq!(a.st.presence.last_focused_window, Some(7));
    a.main_window_event(MainEvent::Unfocused, 1, 1_000);
    assert_eq!(a.st.timers.pending_autohide_at, None);
    let mut b = app(1);
    b.st.timers.summon_pending = true;
    b.main_window_event(MainEvent::Unfocused, 1, 1_000);
    assert_eq!(b.st.timers.pending_autohide_at, None);
}

#[test]
fn the_settings_window_opens_and_closes() {
    let mut a = app(1);
    let (s, build) = a.st.toggle_settings_window();
    assert!(build);
    a.st = s.settings_opened(3, 100);
    assert_eq!(a.st.presence.settings_window, Some(3));
    let (s, build) = a.st.toggle_settings_window();
    assert!(!build);
    assert_eq!(s.presence.settings_window, None);
}

#[test]
fn closing_the_main_window_asks_first() {
    let mut a = app(1);
    a.main_window_event(MainEvent::CloseRequested, 1, 5);
    assert!(a.st.ui.confirm_quit && !a.st.due.exit);
}

#[test]
fn resizes_of_a_burst_reflow_once() {
    let mut a = app(1);
    a.main_window_event(MainEvent::Resized, 1, 1_000);
    a.main_window_event(MainEvent::Resized, 1, 2_000);
    let at = a.st.timers.reflow_pending_at.expect("a reflow is due");
    assert_eq!(at, 2_000 + REFLOW_DELAY);
    a.service_deadlines(&env(at - 1), &vec![None], &vec![]);
    assert!(!a.st.due.reflow);
    a.service_deadlines(&env(at), &vec![None], &vec![]);
    assert!(a.st.due.reflow);
    assert_eq!(a.st.timers.reflow_pending_at, None);
    a.main_window_event(MainEvent::Rescaled, 1, 5_000);
    assert_eq!(a.st.timers.reflow_pending_at, Some(5_000 + RESCALE_DELAY));
}

#[test]
fn the_configuration_is_read_when_its_changes_have_settled() {
    let mut a = app(1);
    assert!(!a.user_event(AppEvent::ConfigChanged, &env(1_000)));
    assert!(a.user_event(AppEvent::Wake, &env(1_000)));
    assert_eq!(a.st.timers.pending_reload_at, Some(1_000 + RELOAD_DELAY));
    a.service_deadlines(&env(1_000 + RELOAD_DELAY), &vec![None], &vec![]);
    assert!(a.st.due.reload);
}

#[test]
fn an_idle_application_waits() {
    let mut a = app(1);
    assert_eq!(a.settle(1_000, &vec![None], &vec![]), Flow::Wait);
    a.st.timers.pending_autohide_at = Some(5_000);
    assert_eq!(a.settle(1_000, &vec![None], &vec![]), Flow::WaitUntil(5_000));
    assert_eq!(a.settle(1_000, &vec![Some(4_000)], &vec![]), Flow::WaitUntil(4_000));
    a.st.timers.slide_anim = Some(1_000);
    assert_ne!(a.settle(1_000, &vec![None], &vec![]), Flow::Wait);
    assert!(a.st.due.paint_main);
}

#[test]
fn a_covered_window_does_not_animate() {
    let mut a = app(1);
    a.st.prefs.fx.crt_enabled = true;
    a.st.prefs.fx.crt_flicker = true;
    assert_ne!(a.settle(1_000, &vec![None], &vec![]), Flow::Wait);
    a.main_window_event(MainEvent::Occluded(true), 1, 1_001);
    a.st.due.paint_main = false;
    assert_eq!(a.settle(1_002, &vec![None], &vec![]), Flow::Wait);
    assert!(!a.st.due.paint_main);
}

#[test]
fn stale_search_matches_are_refreshed_at_the_interval() {
    let mut a = app(1);
    a.st.ui.search_open = true;
    a.begin_frame(false, 1_000);
    a.frame_drained(true, 1_000);
    assert_eq!(a.st.due.search_refresh, Some(10));
    a.st.due.search_refresh = None;
    a.frame_drained(true, 2_000);
    assert_eq!(a.st.due.search_refresh, None);
    assert!(a.st.ui.search_dirty);
    let at = 1_000 + SEARCH_REFRESH_INTERVAL;
    assert_eq!(a.settle(3_000, &vec![None], &vec![]), Flow::WaitUntil(at));
    a.service_deadlines(&env(at), &vec![None], &vec![]);
    a.settle(at, &vec![None], &vec![]);
    assert_eq!(a.st.due.search_refresh, Some(10));
    assert!(!a.st.ui.search_dirty);
}

#[test]
fn frames_are_drawn_only_on_screen_and_count_down() {
    let mut a = app(1);
    a.st.timers.pending_center_frames = 2;
    a.st.presence.pending_center_pos = Some((3, 4));
    let f = a.begin_frame(false, 5);
    assert!(f.draw);
    assert_eq!(f.place, Some((3, 4)));
    assert_eq!(a.st.timers.pending_center_frames, 1);
    a.begin_frame(false, 6);
    assert_eq!(a.st.timers.pending_center_frames, 0);
    assert_eq!(a.begin_frame(false, 7).place, None);
    a.st.presence.visible = false;
    assert!(!a.begin_frame(false, 8).draw);
}

#[test]
fn the_first_window_is_placed_as_its_mode_says() {
    let mut a = App::new(config(), None, None, false, 8);
    a.window_opened(1, true, 7);
    assert_eq!(a.st.due.window, Some(WindowCmd::PlaceCentered));
    assert_eq!(a.st.timers.pending_dock_frames, 0);
    let docked = Config { window_mode: "dropdown".to_string(), ..config() };
    let mut a = App::new(docked, None, None, false, 8);
    a.window_opened(1, false, 7);
    assert_eq!(a.st.due.window, Some(WindowCmd::PlaceDocked));
    assert_eq!(a.st.timers.pending_dock_frames, SETTLE_FRAMES);
    assert_eq!(a.st.timers.slide_anim, Some(7));
}

#[test]
fn a_second_start_opens_no_second_window() {
    let mut a = App::new(config(), None, None, false, 8);
    assert!(a.wants_window());
    a.window_opened(1, true, 0);
    assert!(!a.wants_window());
    a.st.timers.summon_pending = false;
    a.window_opened(2, true, 9);
    assert_eq!(a.st.presence.main_window, Some(1));
    assert!(!a.st.timers.summon_pending);
    assert_eq!(a.st.timers.summon_settle_until, Some(SUMMON_SETTLE));
}

#[test]
fn a_missed_frame_of_a_detached_window_ends_the_flash_and_asks_for_nothing() {
    let mut ui = new_ui();
    ui.caret_anim = Some(3);
    let going = ui.frame_missed(false);
    assert_eq!(going.caret_anim, Some(3));
    assert!(!going.paint);
    let over = ui.frame_missed(true);
    assert_eq!(over.caret_anim, None);
    assert!(!over.paint);
    assert!(ui.frame_presented(false, false, false).paint);
    assert!(!ui.frame_presented(true, false, false).paint);
    assert!(ui.frame_presented(true, false, true).paint);
    ui.occluded = true;
    assert!(!ui.frame_presented(false, true, true).paint);
}

#[test]
fn a_covered_detached_window_is_not_watched() {
    let mut ui = new_ui();
    assert!(!ui.watching());
    ui.focused = true;
    assert!(ui.watching());
    ui.occluded = true;
    assert!(!ui.watching());
}

#[test]
fn the_palette_lies_over_the_welcome_and_the_help_text() {
    let mut a = app(1);
    a.st.ui.welcome_open = true;
    assert!(a.st.draws_welcome());
    assert!(!a.st.draws_help());
    a.st.ui.help_open = true;
    assert!(a.st.draws_help());
    assert!(!a.st.draws_welcome());
    a.st.ui.palette_open = true;
    assert!(!a.st.draws_help());
    a.st.ui.help_open = false;
    assert!(!a.st.draws_welcome());
}

#[test]
fn only_a_docked_window_at_the_top_edge_has_square_corners() {
    let mut a = app(1);
    assert!(!a.st.is_top_flush(0, 0));
    a.st.prefs.window_mode = WindowMode::Dropdown;
    assert!(a.st.is_top_flush(0, 0));
    assert!(a.st.is_top_flush(1081, 1080));
    assert!(!a.st.is_top_flush(1082, 1080));
    assert!(!a.st.is_top_flush(0, -1080));
}

#[test]
fn one_effect_reads_the_finished_frame() {
    let mut a = app(1);
    a.st.prefs.fx.crt_enabled = true;
    assert!(a.st.wants_offscreen());
    let r = a.st.routing(true, 5);
    assert!(r.crt && !r.tier_b);
    let r = a.st.routing(false, 5);
    assert!(!r.crt && !r.tier_b);
}

#[test]
fn deadlines_are_compared_and_merged() {
    assert!(!elapsed(None, 5));
    assert!(!elapsed(Some(6), 5));
    assert!(elapsed(Some(5), 5));
    assert_eq!(earliest(&vec![None, Some(9), Some(4), None]), Some(4));
    assert_eq!(earliest(&vec![None]), None);
    assert_eq!(expired(&vec![Some(3), None, Some(9), Some(5)], 5), vec![0, 3]);
}

#[test]
fn held_output_is_flushed_when_its_time_comes() {
    let mut a = app(2);
    a.service_deadlines(&env(10), &vec![Some(10), None], &vec![]);
    assert!(!a.st.due.paint_main);
    a.service_deadlines(&env(10), &vec![None, Some(10)], &vec![]);
    assert!(a.st.due.paint_main);
}

fn done(code: Option<i32>) -> CommandCompletion {
    CommandCompletion {
        exit_code: code,
        duration: Some("12s".to_string()),
        last_line: "all built".to_string(),
    }
}

#[test]
fn notices_tell_what_happened() {
    assert!(!done(Some(0)).failed());
    assert!(done(Some(2)).failed());
    assert!(!done(None).failed());
    let (summary, body) = build_notification_text("build", &done(Some(2)), true);
    assert_eq!(summary, "build — failed (exit 2) · 12s");
    assert_eq!(body, "all built");
    assert_eq!(attention_for(true), Attention::Critical);
    assert_eq!(attention_for(false), Attention::Informational);
    assert!(!detached_label("").is_empty());
}

#[test]
fn notices_are_remembered_by_where_they_came_from() {
    let a = app(1);
    let mut log = NotifyLog::new();
    assert_eq!(log.since_last(NotifyKey::MainTab(0), 5), None);
    let n = a.notify_main(&mut log, 0, &done(Some(2)), 5);
    assert!(n.failed);
    assert_eq!(n.attention, Attention::Critical);
    assert_eq!(log.since_last(NotifyKey::MainTab(0), 9), Some(4));
    assert_eq!(log.since_last(NotifyKey::Detached(0), 9), None);
}

#[test]
fn the_first_failure_is_summoned() {
    assert_eq!(pick_summon(&vec![]), None);
    assert_eq!(pick_summon(&vec![(2, false), (1, true), (0, true)]), Some(1));
    assert_eq!(pick_summon(&vec![(2, false), (1, false)]), Some(1));
    let mut a = app(2);
    a.summon_for(&vec![(0, true)], &env(5));
    assert_eq!(a.active, 1);
    a.st.prefs.auto_summon_on_finish = true;
    a.st = a.st.set_visibility(false, &env(6));
    a.summon_for(&vec![(0, true)], &env(7));
    assert!(a.st.presence.visible);
    assert_eq!(a.active, 0);
}

#[test]
fn a_covered_detached_window_does_not_animate() {
    let mut a = app(2);
    let d = a.detach_tab(0).expect("two tabs");
    a.detach_done(d, 7);
    a.st.presence.main_occluded = true;
    a.detached[0].ui.caret_anim = Some(1_000);
    assert_ne!(a.settle(1_000, &vec![None], &vec![None]), Flow::Wait);
    a.detached_window_event(0, DetachedEvent::Occluded(true), &env(1_001));
    a.detached[0].ui.paint = false;
    assert_eq!(a.settle(1_002, &vec![None], &vec![None]), Flow::Wait);
    assert!(!a.detached[0].ui.paint);
}

#[test]
fn no_deadline_that_has_come_is_left() {
    let mut a = app(1);
    a.st.timers.reflow_pending_at = Some(5);
    a.st.timers.pending_autohide_at = Some(7);
    a.st.timers.pending_reload_at = Some(9);
    a.service_deadlines(&env(8), &vec![None], &vec![]);
    assert_eq!(a.st.timers.reflow_pending_at, None);
    assert_eq!(a.st.timers.pending_autohide_at, None);
    assert_eq!(a.st.timers.pending_reload_at, Some(9));
}

#[test]
fn a_finished_frame_asks_for_no_other() {
    let mut a = app(1);
    a.st.timers.caret_anim = Some(1_000);
    a.begin_frame(false, 2_000);
    a.frame_drained(false, 2_000);
    a.st.due.paint_main = false;
    a.frame_done(true, false, 2_000);
    assert!(a.st.due.paint_main);
    a.st.due.paint_main = false;
    a.frame_done(true, true, 3_000);
    assert!(!a.st.due.paint_main);
    assert_eq!(a.st.timers.caret_anim, None);
}
