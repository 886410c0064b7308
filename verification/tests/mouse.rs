use jetty_app::answers::{copied, searchable, Copied};
use jetty_app::buttons::{Release, RightHit, Wheel, WheelOwner};
use jetty_app::config::{Config, ConfigFlags};
use jetty_app::copymode::Screen;
use jetty_app::detached_input::{TitleHit, WindowMove, WindowPress, WindowRelease};
use jetty_app::input::{Ask, MouseReport};
use jetty_app::links::{LinkStep, Spot};
use jetty_app::pointer::{PointerMove, SHIFT_HINT_COOLDOWN, SHIFT_HINT_SHOWN};
use jetty_app::presence::Env;
use jetty_app::press::{
    tab_menu_item, BarHit, GridPress, GridUse, OpenPress, PaletteHit, PopupHit, PressOwner,
    SearchHit, StripHit, TabMenuItem, DOUBLE_CLICK,
};
use jetty_app::state::{App, FxToggles, HintToken, PaletteCmd, TokenKind};
use jetty_app::zone::{Monitor, ResizeDirection, ResizeZone};

fn config() -> Config {
    Config {
        font_family: "JetBrains Mono".to_string(),
        ui_font_family: String::new(),
        summon_effect: "bayer".to_string(),
        window_mode: "center".to_string(),
        tab_bar_position: "top".to_string(),
        summon_hotkey: "F9".to_string(),
        shell: String::new(),
        flags: ConfigFlags {
            focus_autohide: true,
            launch_at_login: false,
            scrollback_lines: 10_000,
            show_welcome: false,
            show_perf_hud: false,
            fx: FxToggles {
                crt_enabled: false,
                crt_animate_roll: false,
                crt_flicker: false,
                crt_jitter: false,
                caret_flash_enabled: false,
                caret_glow_enabled: false,
            },
            notify_on_command_finish: true,
            notify_min_seconds: 10,
            notify_only_on_failure: false,
            auto_summon_on_finish: false,
            osc52_allow_paste: false,
            hot_reload: true,
        },
    }
}

fn env(now: u64) -> Env {
    Env {
        now,
        outer_pos: Some((40, 50)),
        monitors: vec![Monitor { x: 0, y: 0, width: 1920, height: 1080 }],
        grid_ready: true,
    }
}

/// An application with the main window 1 and `n` tabs, named 10, 11 and so on;
/// the last one is active and nothing is due.
fn app(n: u64) -> App {
    let mut a = App::new(config(), None, None, false, 8);
    let idle = a.st.due;
    a.window_opened(1, true, 0);
    a.first_shell(Some(10));
    for i in 1..n {
        a.new_tab(10 + i);
    }
    a.st.timers.summon_pending = false;
    a.st.timers.summon_settle_until = None;
    a.st.timers.pending_center_frames = 0;
    a.st.timers.pending_dock_frames = 0;
    a.st.due = idle;
    a
}

fn ids(a: &App) -> Vec<u64> {
    a.tabs.iter().map(|t| t.id).collect()
}

fn grid() -> GridPress {
    GridPress {
        bar: BarHit::Outside,
        link_held: false,
        shift: false,
        over_grid: true,
        link: None,
        mouse_mode: false,
    }
}

fn open() -> OpenPress {
    OpenPress {
        search: SearchHit::Outside,
        zone: ResizeZone::Interior,
        strip: None,
        near: false,
        grid: grid(),
    }
}

fn still() -> PointerMove {
    PointerMove {
        wants_drag: false,
        wants_motion: false,
        cell_changed: true,
        cell_known: true,
        zone: None,
        controls_changed: false,
        beyond_strip: false,
        tab_menu_row: None,
        menu_row: None,
    }
}

fn turn(lines: i32) -> Wheel {
    Wheel {
        lines,
        over_scrollbar: false,
        mouse_mode: false,
        alt_screen: false,
        alternate_scroll: false,
    }
}

#[test]
fn the_wheel_goes_to_the_program_the_pager_or_the_history() {
    assert!(matches!(turn(0).decide(), Ask::Nothing));
    assert!(matches!(turn(3).decide(), Ask::ScrollLines(3)));
    let mouse = |n: i32| Wheel { mouse_mode: true, ..turn(n) };
    assert!(matches!(mouse(1).decide(), Ask::Report(MouseReport::WheelUp, 1)));
    assert!(matches!(mouse(-4).decide(), Ask::Report(MouseReport::WheelDown, 2)));
    assert!(matches!(mouse(i32::MIN).decide(), Ask::Report(MouseReport::WheelDown, 8)));
    let pager = |n: i32| Wheel { alt_screen: true, alternate_scroll: true, ..turn(n) };
    assert!(matches!(pager(-2).decide(), Ask::Arrows(false, 2)));
    assert!(matches!(pager(100).decide(), Ask::Arrows(true, 12)));
    let bar = Wheel { over_scrollbar: true, ..mouse(5) };
    assert!(matches!(bar.decide(), Ask::ScrollLines(5)));
}

#[test]
fn the_wheel_scrolls_an_open_palette() {
    let mut a = app(1);
    assert_eq!(a.wheel_target(), WheelOwner::Grid);
    a.open_palette();
    a.palette_filled(vec![PaletteCmd::NewTab, PaletteCmd::Quit]);
    assert_eq!(a.wheel_target(), WheelOwner::Palette);
    a.palette_wheel(1);
    assert_eq!(a.palette.selected, 1);
    a.close_palette();
    a.enter_hint_mode(
        vec![HintToken { kind: TokenKind::Hash, text: "abc1234".to_string() }],
        vec!["a".to_string()],
        false,
    );
    assert_eq!(a.wheel_target(), WheelOwner::Nobody);
}

#[test]
fn a_release_reaches_the_program_only_after_its_press() {
    let mut a = app(1);
    let rel = Release { mouse_mode: true, dragged: false };
    assert!(matches!(a.left_released(rel, 5), Ask::Nothing));
    let p = OpenPress { grid: GridPress { mouse_mode: true, ..grid() }, ..open() };
    assert!(matches!(a.press_open_at(p, 5), Ask::Report(MouseReport::LeftPress, 1)));
    assert!(a.st.pointer.grabbed);
    assert!(matches!(a.left_released(rel, 6), Ask::Report(MouseReport::LeftRelease, 1)));
    assert!(!a.st.pointer.grabbed);
}

#[test]
fn a_swallowed_drag_shows_the_hint_once_in_a_while() {
    let mut a = app(1);
    let rel = Release { mouse_mode: true, dragged: true };
    a.st.pointer.grabbed = true;
    a.left_released(rel, 1_000);
    assert_eq!(a.st.pointer.shift_hint_until, Some((1_000 + SHIFT_HINT_SHOWN, 1)));
    a.st.pointer.shift_hint_until = None;
    a.st.pointer.grabbed = true;
    a.left_released(rel, 1_000 + SHIFT_HINT_COOLDOWN - 1);
    assert_eq!(a.st.pointer.shift_hint_until, None);
    a.st.pointer.grabbed = true;
    a.left_released(rel, 1_000 + SHIFT_HINT_COOLDOWN);
    assert!(a.st.pointer.shift_hint_until.is_some());
}

#[test]
fn shift_selects_over_a_program_that_reads_the_mouse() {
    let g = GridPress { mouse_mode: true, shift: true, ..grid() };
    assert_eq!(g.purpose(), GridUse::Select);
    assert_eq!(GridPress { mouse_mode: true, ..grid() }.purpose(), GridUse::Report);
    assert_eq!(grid().purpose(), GridUse::Select);
    assert_eq!(GridPress { bar: BarHit::Thumb, ..grid() }.purpose(), GridUse::HoldThumb);
    assert_eq!(GridPress { bar: BarHit::Track, ..grid() }.purpose(), GridUse::JumpThumb);
    let link = GridPress {
        link_held: true,
        link: Some("https://x.example".to_string()),
        ..grid()
    };
    assert_eq!(link.purpose(), GridUse::Follow);
    let mut a = app(1);
    let ask = a.press_open_at(OpenPress { grid: link, ..open() }, 5);
    assert!(matches!(ask, Ask::OpenUrl(u) if u == "https://x.example"));
}

#[test]
fn text_is_selected_by_dragging() {
    let mut a = app(1);
    assert_eq!(a.left_pressed(true), PressOwner::Open);
    assert!(matches!(a.press_open_at(open(), 5), Ask::BeginSelection));
    assert!(a.st.pointer.selecting);
    let m = a.pointer_moved(PointerMove { wants_motion: true, ..still() });
    assert!(m.extend && m.report.is_none());
    let rel = Release { mouse_mode: false, dragged: true };
    assert!(matches!(a.left_released(rel, 6), Ask::EndSelection));
    assert!(!a.st.pointer.selecting);
}

#[test]
fn motions_are_reported_on_request_only() {
    let mut a = app(1);
    assert_eq!(a.pointer_moved(still()).report, None);
    assert_eq!(a.pointer_moved(PointerMove { wants_drag: true, ..still() }).report, None);
    assert_eq!(a.pointer_moved(PointerMove { wants_motion: true, ..still() }).report, Some(3));
    a.st.pointer.grabbed = true;
    assert_eq!(a.pointer_moved(PointerMove { wants_drag: true, ..still() }).report, Some(0));
    let same = PointerMove { wants_drag: true, cell_changed: false, ..still() };
    assert_eq!(a.pointer_moved(same).report, None);
}

#[test]
fn the_edges_resize_the_window() {
    let mut a = app(1);
    let p = OpenPress { zone: ResizeZone::SouthEast, strip: Some(StripHit::Tab(0)), ..open() };
    assert!(matches!(a.press_open_at(p, 5), Ask::DragResize(ResizeDirection::SouthEast)));
    a.pointer_moved(PointerMove { zone: Some(ResizeZone::West), ..still() });
    assert_eq!(a.st.pointer.resize_cursor, ResizeZone::West);
}

#[test]
fn a_tab_is_dragged_out_of_the_strip() {
    let mut a = app(2);
    a.press_strip_at(StripHit::Tab(0), false, 5);
    assert_eq!(a.active, 0);
    assert_eq!(a.st.pointer.tab_drag.map(|d| (d.idx, d.tearing)), Some((0, false)));
    a.pointer_moved(PointerMove { beyond_strip: true, ..still() });
    assert_eq!(a.st.pointer.tab_drag.map(|d| (d.idx, d.tearing)), Some((0, true)));
    let rel = Release { mouse_mode: false, dragged: true };
    assert!(matches!(a.left_released(rel, 6), Ask::DetachHere(0)));
    assert!(a.st.pointer.tab_drag.is_none());
}

#[test]
fn a_double_click_on_a_tab_renames_it() {
    let mut a = app(2);
    a.press_strip_at(StripHit::Tab(1), false, 1_000);
    assert_eq!(a.st.ui.renaming, None);
    a.press_strip_at(StripHit::Tab(1), true, 1_000 + DOUBLE_CLICK / 2);
    assert_eq!(a.st.ui.renaming, Some(1));
    assert_eq!(a.rename_buf, "Tab 2");
    let mut slow = app(2);
    slow.press_strip_at(StripHit::Tab(1), false, 1_000);
    slow.press_strip_at(StripHit::Tab(1), true, 1_000 + 2 * DOUBLE_CLICK);
    assert_eq!(slow.st.ui.renaming, None);
}

#[test]
fn the_strip_opens_tabs_and_asks_before_closing() {
    let mut a = app(2);
    assert!(matches!(a.press_strip_at(StripHit::Plus, false, 5), Ask::SpawnTab));
    a.press_strip_at(StripHit::CloseTab(0), false, 5);
    assert_eq!(a.st.ui.confirm_close, Some(0));
    a.press_close_at(0, PopupHit::Confirm, &env(6));
    assert_eq!(ids(&a), vec![11]);
    assert!(matches!(a.press_strip_at(StripHit::Space, false, 7), Ask::DragWindow));
    assert!(matches!(a.press_strip_at(StripHit::Space, true, 8), Ask::ToggleMaximized));
    assert!(matches!(a.press_strip_at(StripHit::Minimize, false, 9), Ask::Minimize));
    a.press_strip_at(StripHit::Close, false, 9);
    assert!(a.st.ui.confirm_quit);
    a.press_quit_at(PopupHit::Cancel);
    assert!(!a.st.ui.confirm_quit);
    a.press_strip_at(StripHit::Help, false, 9);
    assert!(a.st.ui.help_open);
    a.press_help_at(true);
    assert!(a.st.ui.help_open);
    a.press_help_at(false);
    assert!(!a.st.ui.help_open);
}

#[test]
fn the_menu_of_a_tab_detaches_renames_and_closes_it() {
    assert_eq!(tab_menu_item(true, 0), Some(TabMenuItem::Detach));
    assert_eq!(tab_menu_item(true, 2), Some(TabMenuItem::Close));
    assert_eq!(tab_menu_item(false, 0), Some(TabMenuItem::Rename));
    assert_eq!(tab_menu_item(false, 2), None);
    let mut a = app(2);
    a.right_button(RightHit::Tab(0));
    assert_eq!(a.st.ui.tab_menu, Some(0));
    assert!(a.st.ui.tab_menu_detach);
    assert_eq!(a.left_pressed(true), PressOwner::TabMenu(0));
    assert!(matches!(a.press_tab_menu_at(0, Some(0)), Ask::Detach(0)));
    assert_eq!(a.st.ui.tab_menu, None);
    a.right_button(RightHit::Tab(1));
    a.press_tab_menu_at(1, Some(1));
    assert_eq!(a.st.ui.renaming, Some(1));
    assert_eq!(a.rename_buf, "Tab 2");
}

#[test]
fn the_right_button_opens_one_menu_at_a_time() {
    let mut a = app(2);
    a.right_button(RightHit::Grid);
    assert!(a.st.ui.context_menu);
    a.right_button(RightHit::Tab(0));
    assert!(!a.st.ui.context_menu);
    assert_eq!(a.st.ui.tab_menu, Some(0));
    a.st.ui.confirm_quit = true;
    a.right_button(RightHit::Grid);
    assert!(!a.st.ui.context_menu);
}

#[test]
fn the_middle_button_pastes_where_nothing_covers_the_shell() {
    let mut a = app(1);
    assert!(matches!(a.middle_button(true, false, false), Ask::PasteClipboard));
    assert!(matches!(a.middle_button(false, false, false), Ask::Nothing));
    assert!(matches!(a.middle_button(true, true, false), Ask::Nothing));
    assert!(matches!(a.middle_button(true, true, true), Ask::PasteClipboard));
    a.st.ui.help_open = true;
    assert!(matches!(a.middle_button(true, false, false), Ask::Nothing));
}

#[test]
fn presses_reach_the_topmost_overlay() {
    let mut a = app(1);
    assert_eq!(a.left_pressed(false), PressOwner::Nobody);
    a.st.ui.help_open = true;
    assert_eq!(a.left_pressed(true), PressOwner::Help);
    a.st.ui.context_menu = true;
    assert_eq!(a.left_pressed(true), PressOwner::Menu);
    a.st.ui.confirm_quit = true;
    assert_eq!(a.left_pressed(true), PressOwner::Quit);
    a.open_palette();
    a.palette_filled(vec![PaletteCmd::Search]);
    assert_eq!(a.left_pressed(true), PressOwner::Palette);
    assert!(matches!(a.press_palette_at(PaletteHit::Panel), Ask::Nothing));
    assert!(a.st.ui.palette_open);
    let ask = a.press_palette_at(PaletteHit::Row(0));
    assert!(matches!(ask, Ask::Run(PaletteCmd::Search)));
    assert!(!a.st.ui.palette_open);
}

#[test]
fn a_press_ends_copy_mode_and_goes_on() {
    let mut a = app(1);
    let s = Screen {
        rows: 24,
        cols: 80,
        cursor_row: 0,
        cursor_col: 0,
        cursor_visible: true,
        alt_screen: false,
    };
    a.st = a.st.enter_copy_mode(false, Some(10), s);
    assert_eq!(a.left_pressed(true), PressOwner::Open);
    assert!(a.st.ui.copy_mode.is_none());
    assert_eq!(a.st.due.selection_clear, Some(10));
}

#[test]
fn links_light_up_under_the_modifier_only() {
    let mut a = app(2);
    let d = a.detach_tab(0).expect("two tabs");
    a.detach_done(d, 7);
    let spot = Spot { held: true, over_grid: true, cell: Some((3, 4)) };
    assert_eq!(a.update_link_hover(spot, false), LinkStep::Scan(3, 4));
    a.st = a.st.link_scanned(3, 4, true);
    assert!(a.st.pointer.link_hover);
    assert_eq!(a.update_link_hover(spot, false), LinkStep::Keep);
    assert_eq!(a.update_link_hover(spot, true), LinkStep::Scan(3, 4));
    a.detached[0].ui.link_hover = true;
    a.modifiers_changed(false);
    assert!(!a.st.pointer.link_hover && !a.detached[0].ui.link_hover);
    let off = Spot { held: false, ..spot };
    assert_eq!(a.update_link_hover(off, true), LinkStep::Clear);
}

fn window_press() -> WindowPress {
    WindowPress {
        menu_row: None,
        zone: ResizeZone::Interior,
        title: None,
        near: false,
        movable: true,
        cell_known: true,
        grid: grid(),
    }
}

fn detached_app() -> App {
    let mut a = app(2);
    let d = a.detach_tab(0).expect("two tabs");
    a.detach_done(d, 7);
    a
}

#[test]
fn a_detached_window_is_dragged_back_onto_the_strip() {
    let mut a = detached_app();
    let p = WindowPress { title: Some(TitleHit::Bar), ..window_press() };
    a.detached_pressed(0, p, &env(5));
    assert!(a.detached[0].ui.bar_drag);
    let click = WindowRelease { cell_known: true, dragged: false, carried: false, on_strip: true };
    a.detached_released(0, click, &env(6));
    assert_eq!(a.detached.len(), 1);
    assert!(!a.detached[0].ui.bar_drag);
    let p = WindowPress { title: Some(TitleHit::Bar), ..window_press() };
    a.detached_pressed(0, p, &env(5_000_000_000));
    let drop = WindowRelease { carried: true, dragged: true, ..click };
    a.detached_released(0, drop, &env(5_000_000_001));
    assert!(a.detached.is_empty());
    assert_eq!(ids(&a), vec![11, 10]);
}

#[test]
fn the_cross_of_a_detached_window_returns_the_tab() {
    let mut a = detached_app();
    let p = WindowPress { title: Some(TitleHit::Close), ..window_press() };
    a.detached_pressed(0, p, &env(5));
    assert!(a.detached.is_empty());
    assert_eq!(ids(&a), vec![11, 10]);
}

#[test]
fn a_detached_window_selects_reports_and_scrolls_on_its_own() {
    let mut a = detached_app();
    assert!(matches!(a.detached_pressed(0, window_press(), &env(5)), Ask::BeginSelection));
    assert!(a.detached[0].ui.selecting && !a.st.pointer.selecting);
    let rel = WindowRelease { cell_known: true, dragged: false, carried: false, on_strip: false };
    assert!(matches!(a.detached_released(0, rel, &env(6)), Ask::EndSelection));
    assert!(matches!(a.detached_released(0, rel, &env(7)), Ask::Nothing));
    assert!(matches!(a.detached_wheel(0, turn(2)), Ask::ScrollLines(2)));
    a.detached_right_button(0);
    assert!(a.detached[0].ui.menu_open);
    let m = WindowMove {
        zone: ResizeZone::Interior,
        over_close: true,
        menu_row: Some(1),
        cell_known: true,
        wants_drag: false,
        wants_motion: false,
        cell_changed: false,
    };
    let (ui, ask) = a.detached[0].ui.pointer_moved(m);
    assert_eq!(ui.menu_hover, Some(1));
    assert!(!ask.carry && ask.report.is_none());
    let calm = a.detached[0].ui.menu_closed();
    assert!(!calm.menu_open);
    assert!(matches!(calm.middle_button(true, false, false), Ask::PasteClipboard));
}

#[test]
fn a_double_click_on_the_edited_title_keeps_the_edit() {
    let mut a = app(2);
    a.st.ui.renaming = Some(1);
    a.rename_buf = "half".to_string();
    a.press_strip_at(StripHit::Tab(1), false, 1_000);
    a.press_strip_at(StripHit::Tab(1), true, 1_001);
    assert_eq!(a.st.ui.renaming, Some(1));
    assert_eq!(a.rename_buf, "half");
}

#[test]
fn an_asked_copy_leaves_no_highlight_and_a_drag_does() {
    assert_eq!(copied(false, Some("x")), Copied::Asked);
    assert_eq!(copied(true, Some("x")), Copied::Dragged);
    assert_eq!(copied(true, Some("")), Copied::Clicked);
    assert_eq!(copied(false, None), Copied::Nothing);
    let mut a = app(1);
    a.selection_copied(Copied::Dragged);
    a.selection_copied(Copied::Nothing);
    assert!(a.st.due.selection_clear.is_none() && !a.st.due.paint_main);
    a.selection_copied(Copied::Asked);
    assert_eq!(a.st.due.selection_clear, Some(10));
    assert!(a.st.due.paint_main);
    let mut d = detached_app();
    d.st.due.selection_clear = None;
    d.window_copied(0, Copied::Clicked);
    assert_eq!(d.st.due.selection_clear, Some(10));
    assert!(d.detached[0].ui.paint);
}

#[test]
fn a_jump_without_a_prompt_changes_nothing() {
    let mut a = detached_app();
    a.st.due.relink = false;
    a.prompt_jumped(false);
    a.window_jumped(0, false);
    a.detached[0].ui.paint = false;
    assert!(!a.st.due.relink);
    a.prompt_jumped(true);
    assert!(a.st.due.relink);
    a.window_jumped(0, true);
    assert!(a.detached[0].ui.relink && a.detached[0].ui.paint);
}

#[test]
fn pasted_text_is_searched_for_without_its_controls() {
    assert_eq!(searchable("a\tb\ncé"), "abcé");
}
