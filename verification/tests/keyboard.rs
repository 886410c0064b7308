use jetty_app::config::{Config, ConfigFlags};
use jetty_app::copymode::Screen;
use jetty_app::input::{
    hint_base_letter, keycode_letter, link_modifier_held, single_char, Ask, Decision, KeyAction,
    KeyCode, KeyPress, LogicalKey, Motion,
};
use jetty_app::keys::{is_composed, resolve, Owner};
use jetty_app::modal::open_url;
use jetty_app::presence::Env;
use jetty_app::state::{App, FxToggles, HintToken, PaletteCmd, TokenKind};
use jetty_app::zone::Monitor;

fn config() -> Config {
    Config {
        font_family: "JetBrains Mono".to_string(),
        ui_font_family: String::new(),
        summon_effect: "bayer".to_string(),
        window_mode: "center".to_string(),
        tab_bar_position: "top".to_string(),
        summon_hotkey: "F9".to_string(),
        shell: String::new(),
        flags: ConfigFlags {
            focus_autohide: true,
            launch_at_login: false,
            scrollback_lines: 10_000,
            show_welcome: false,
            show_perf_hud: false,
            fx: FxToggles {
                crt_enabled: false,
                crt_animate_roll: false,
                crt_flicker: false,
                crt_jitter: false,
                caret_flash_enabled: false,
                caret_glow_enabled: false,
            },
            notify_on_command_finish: true,
            notify_min_seconds: 10,
            notify_only_on_failure: false,
            auto_summon_on_finish: false,
            osc52_allow_paste: false,
            hot_reload: true,
        },
    }
}

fn env(now: u64) -> Env {
    Env {
        now,
        outer_pos: Some((40, 50)),
        monitors: vec![Monitor { x: 0, y: 0, width: 1920, height: 1080 }],
        grid_ready: true,
    }
}

/// An application with the main window 1 and `n` tabs, named 10, 11 and so on;
/// the last one is active and nothing is due.
fn app(n: u64) -> App {
    let mut a = App::new(config(), None, None, false, 8);
    let idle = a.st.due;
    a.window_opened(1, true, 0);
    a.first_shell(Some(10));
    for i in 1..n {
        a.new_tab(10 + i);
    }
    a.st.timers.summon_pending = false;
    a.st.timers.summon_settle_until = None;
    a.st.timers.pending_center_frames = 0;
    a.st.timers.pending_dock_frames = 0;
    a.st.due = idle;
    a
}

fn ids(a: &App) -> Vec<u64> {
    a.tabs.iter().map(|t| t.id).collect()
}

fn press(logical: LogicalKey) -> KeyPress {
    KeyPress {
        synthetic: false,
        logical,
        physical: None,
        text: None,
        ctrl: false,
        shift: false,
        alt: false,
        sup: false,
        chord: None,
        dead_key: None,
        decided: Decision::Nothing,
    }
}

fn typed(s: &str) -> KeyPress {
    KeyPress {
        text: Some(s.to_string()),
        decided: Decision::Send(s.as_bytes().to_vec()),
        ..press(LogicalKey::Character(s.to_string()))
    }
}

fn chord(a: KeyAction) -> KeyPress {
    KeyPress { chord: Some(a), decided: Decision::Act(a), ctrl: true, ..press(LogicalKey::Other) }
}

fn escape() -> KeyPress {
    KeyPress { decided: Decision::Send(vec![0x1b]), ..press(LogicalKey::Escape) }
}

#[test]
fn letters_go_to_the_shell() {
    let mut a = app(1);
    assert!(matches!(a.key_pressed(typed("x"), &env(5)), Ask::Send(b) if b == b"x"));
}

#[test]
fn keys_held_on_focus_do_nothing() {
    let mut a = app(1);
    let k = KeyPress { synthetic: true, ..typed("x") };
    assert!(matches!(a.key_pressed(k, &env(5)), Ask::Nothing));
}

#[test]
fn escape_closes_a_menu_before_it_reaches_the_shell() {
    let mut a = app(1);
    a.st.ui.context_menu = true;
    assert!(matches!(a.key_pressed(escape(), &env(5)), Ask::Nothing));
    assert!(!a.st.ui.context_menu);
    assert!(matches!(a.key_pressed(escape(), &env(5)), Ask::Send(b) if b == [0x1b]));
}

#[test]
fn the_quit_popup_takes_every_key() {
    let mut a = app(1);
    a.key_pressed(chord(KeyAction::Quit), &env(5));
    assert!(a.st.ui.confirm_quit);
    assert_eq!(a.st.key_owner(false, false), Owner::Quit);
    assert!(matches!(a.key_pressed(typed("x"), &env(5)), Ask::Nothing));
    assert!(a.st.ui.confirm_quit && !a.st.due.exit);
    a.key_pressed(escape(), &env(5));
    assert!(!a.st.ui.confirm_quit && !a.st.due.exit);
    a.key_pressed(chord(KeyAction::Quit), &env(5));
    a.key_pressed(press(LogicalKey::Enter), &env(5));
    assert!(a.st.due.exit);
}

#[test]
fn the_close_popup_closes_the_tab_it_asked_about() {
    let mut a = app(3);
    a.select_tab(1);
    a.key_pressed(chord(KeyAction::CloseTab), &env(5));
    assert_eq!(a.st.ui.confirm_close, Some(1));
    assert_eq!(a.st.key_owner(false, false), Owner::Close(1));
    a.key_pressed(press(LogicalKey::Enter), &env(5));
    assert_eq!(ids(&a), vec![10, 12]);
    assert_eq!(a.st.ui.confirm_close, None);
}

#[test]
fn a_rename_is_typed_corrected_and_committed() {
    let mut a = app(1);
    a.st.ui.renaming = Some(0);
    for k in ["a", "b", "c"] {
        assert!(matches!(a.key_pressed(typed(k), &env(5)), Ask::Nothing));
    }
    a.key_pressed(press(LogicalKey::Backspace), &env(5));
    assert_eq!(a.rename_buf, "ab");
    a.key_pressed(press(LogicalKey::Enter), &env(5));
    assert_eq!(a.tabs[0].title, "ab");
    a.st.ui.renaming = Some(0);
    a.key_pressed(typed("z"), &env(5));
    a.key_pressed(escape(), &env(5));
    assert_eq!(a.st.ui.renaming, None);
    assert_eq!(a.tabs[0].title, "ab");
}

#[test]
fn the_palette_moves_and_runs_its_selection() {
    let mut a = app(2);
    assert!(matches!(a.key_pressed(chord(KeyAction::OpenPalette), &env(5)), Ask::FillPalette));
    assert!(a.st.ui.palette_open);
    a.palette_filled(vec![PaletteCmd::NewTab, PaletteCmd::Quit, PaletteCmd::Search]);
    a.key_pressed(press(LogicalKey::ArrowDown), &env(5));
    assert_eq!(a.palette.selected, 1);
    a.key_pressed(press(LogicalKey::ArrowUp), &env(5));
    a.key_pressed(press(LogicalKey::ArrowUp), &env(5));
    assert_eq!(a.palette.selected, 0);
    assert!(matches!(a.key_pressed(typed("q"), &env(5)), Ask::Refilter));
    assert_eq!(a.palette.query, "q");
    a.palette_filled(vec![PaletteCmd::Quit]);
    assert_eq!(a.palette.selected, 0);
    let ask = a.key_pressed(press(LogicalKey::Enter), &env(5));
    assert!(matches!(ask, Ask::Run(PaletteCmd::Quit)));
    assert!(!a.st.ui.palette_open);
    a.run_palette_cmd(PaletteCmd::Quit, 4, &env(5));
    assert!(a.st.ui.confirm_quit);
}

#[test]
fn the_palette_scrolls_with_its_selection() {
    let mut a = app(1);
    a.open_palette();
    a.palette_filled(vec![PaletteCmd::NewTab; 20]);
    a.palette_move(12);
    assert_eq!((a.palette.selected, a.palette.scroll), (12, 5));
    assert_eq!(a.palette.visible_rows(), (5, 13));
    a.palette_move(-12);
    assert_eq!((a.palette.selected, a.palette.scroll), (0, 0));
    a.palette_filled(Vec::new());
    a.palette_move(1);
    assert_eq!((a.palette.selected, a.palette.scroll), (0, 0));
    a.close_palette();
    assert!(!a.st.ui.palette_open);
}

#[test]
fn a_closed_palette_forgets_its_commands_and_opens_at_the_top() {
    let mut a = app(1);
    a.open_palette();
    a.palette_filled(vec![PaletteCmd::NewTab; 20]);
    a.palette_move(12);
    a.close_palette();
    assert!(a.palette.hits.is_empty());
    assert_eq!(a.palette.query, "");
    assert_eq!((a.palette.selected, a.palette.scroll), (12, 5));
    assert_eq!(a.palette.visible_rows(), (0, 0));
    a.open_palette();
    assert_eq!((a.palette.selected, a.palette.scroll), (0, 0));
}

#[test]
fn palette_commands_toggle_effects_there_and_back() {
    let mut a = app(1);
    a.run_palette_cmd(PaletteCmd::ToggleCrt, 4, &env(5));
    assert!(a.st.prefs.fx.crt_enabled && a.st.due.persist);
    a.run_palette_cmd(PaletteCmd::ToggleCrt, 4, &env(5));
    assert!(!a.st.prefs.fx.crt_enabled);
    a.run_palette_cmd(PaletteCmd::SetTheme(3), 4, &env(5));
    assert_eq!(a.st.panel.theme_idx, 3);
    a.run_palette_cmd(PaletteCmd::SetTheme(4), 4, &env(5));
    assert_eq!(a.st.panel.theme_idx, 3);
    a.run_palette_cmd(PaletteCmd::Reattach(0), 4, &env(5));
    assert_eq!(ids(&a), vec![10]);
    let ask = a.run_palette_cmd(PaletteCmd::ToggleLaunchAtLogin, 4, &env(5));
    assert!(matches!(ask, Ask::SetAutostart(true)));
    assert!(a.st.prefs.launch_at_login);
}

#[test]
fn the_search_bar_keeps_text_from_the_shell() {
    let mut a = app(1);
    a.key_pressed(chord(KeyAction::SearchToggle), &env(5));
    assert!(a.st.ui.search_open);
    assert!(matches!(a.key_pressed(typed("n"), &env(5)), Ask::SearchType(s) if s == "n"));
    assert!(matches!(a.key_pressed(press(LogicalKey::Backspace), &env(5)), Ask::SearchPop));
    assert!(matches!(a.key_pressed(press(LogicalKey::Enter), &env(5)), Ask::SearchNav(true)));
    let back = KeyPress { shift: true, ..press(LogicalKey::Enter) };
    assert!(matches!(a.key_pressed(back, &env(5)), Ask::SearchNav(false)));
    assert!(matches!(a.ime_commit("é", 5), Ask::SearchType(s) if s == "é"));
    a.key_pressed(escape(), &env(5));
    assert!(!a.st.ui.search_open);
    assert_eq!(a.st.due.search_clear, Some(10));
    assert!(matches!(a.ime_commit("é", 5), Ask::Send(b) if b == "é".as_bytes()));
}

#[test]
fn hints_narrow_and_fire() {
    let mut a = app(1);
    assert!(a.may_enter_hint(false));
    a.enter_hint_mode(
        vec![
            HintToken { kind: TokenKind::Url, text: "https://a.example".to_string() },
            HintToken { kind: TokenKind::Path, text: "/tmp/x".to_string() },
            HintToken { kind: TokenKind::Url, text: "ftp://b.example".to_string() },
        ],
        vec!["as".to_string(), "ad".to_string(), "f".to_string()],
        false,
    );
    assert_eq!(a.st.key_owner(true, false), Owner::Hint);
    assert_eq!(a.hint.as_ref().map(|h| h.shown_labels()), Some(vec![0, 1, 2]));
    assert!(matches!(a.key_pressed(typed("a"), &env(5)), Ask::Nothing));
    assert_eq!(a.hint.as_ref().map(|h| h.shown_labels()), Some(vec![0, 1]));
    assert!(matches!(a.key_pressed(typed("z"), &env(5)), Ask::Nothing));
    assert!(a.hint.is_some());
    let ask = a.key_pressed(typed("s"), &env(5));
    assert!(matches!(ask, Ask::CopyText(u) if u == "https://a.example"));
    assert!(a.hint.is_none());
}

#[test]
fn alt_opens_a_hinted_link_and_copies_the_rest() {
    for (kind, text) in [(TokenKind::Url, "https://a.example"), (TokenKind::Path, "/tmp/x")] {
        let mut a = app(1);
        a.enter_hint_mode(
            vec![HintToken { kind, text: text.to_string() }],
            vec!["a".to_string()],
            false,
        );
        let ask = a.key_pressed(KeyPress { alt: true, ..typed("a") }, &env(5));
        if kind == TokenKind::Url {
            assert!(matches!(ask, Ask::OpenUrl(u) if u == text));
        } else {
            assert!(matches!(ask, Ask::CopyText(u) if u == text));
        }
    }
}

#[test]
fn escape_leaves_hint_mode() {
    let mut a = app(1);
    a.enter_hint_mode(
        vec![HintToken { kind: TokenKind::Hash, text: "abc1234".to_string() }],
        vec!["a".to_string()],
        false,
    );
    a.key_pressed(escape(), &env(5));
    assert!(a.hint.is_none());
}

#[test]
fn links_with_other_schemes_are_refused() {
    assert!(matches!(open_url("https://x.example"), Ask::OpenUrl(u) if u == "https://x.example"));
    assert!(matches!(open_url("ftp://x.example"), Ask::RefuseUrl(u) if u == "ftp://x.example"));
}

#[test]
fn copy_mode_moves_selects_and_yanks() {
    let mut a = app(1);
    let s = Screen {
        rows: 24,
        cols: 80,
        cursor_row: 3,
        cursor_col: 5,
        cursor_visible: true,
        alt_screen: false,
    };
    a.st = a.st.enter_copy_mode(false, a.active_tab_id(), s);
    let at = a.st.ui.copy_mode.expect("copy mode is on");
    assert_eq!((at.row, at.col, at.selecting), (3, 5, false));
    assert_eq!(a.st.key_owner(false, false), Owner::Copy);
    assert!(matches!(a.key_pressed(typed("j"), &env(5)), Ask::Motion(Motion::Down)));
    assert!(matches!(a.key_pressed(typed("v"), &env(5)), Ask::ToggleSelect(false)));
    assert!(matches!(a.key_pressed(typed("y"), &env(5)), Ask::Yank));
    let (on, began) = a.st.copy_toggle_select(false, -7, Some(10));
    assert!(began);
    let moved = on.copy_moved(9, 2, 24, 80);
    let span = moved.copy_span(-1).expect("a selection");
    assert_eq!(span.start, (-7, 5, true));
    assert_eq!(span.end, (-1, 2, false));
    assert!(!span.lines);
    let clamped = on.copy_moved(99, 99, 24, 80).ui.copy_mode.expect("copy mode is on");
    assert_eq!((clamped.row, clamped.col), (23, 79));
    a.key_pressed(escape(), &env(5));
    assert!(a.st.ui.copy_mode.is_none());
}

#[test]
fn the_welcome_text_leaves_with_the_first_key() {
    let mut a = app(1);
    a.st.ui.welcome_open = true;
    assert!(matches!(a.key_pressed(typed("x"), &env(5)), Ask::Send(_)));
    assert!(!a.st.ui.welcome_open);
}

#[test]
fn typing_flashes_the_caret_where_wanted() {
    let mut a = app(1);
    a.key_pressed(typed("x"), &env(5));
    assert_eq!(a.st.timers.caret_anim, None);
    a.st.prefs.fx.caret_flash_enabled = true;
    a.key_pressed(typed("x"), &env(6));
    assert_eq!(a.st.timers.caret_anim, Some(6));
    a.key_pressed(escape(), &env(7));
    assert_eq!(a.st.timers.caret_anim, Some(6));
}

#[test]
fn fonts_change_at_once_and_grids_a_little_later() {
    let mut a = app(2);
    let d = a.detach_tab(0).expect("two tabs");
    a.detach_done(d, 7);
    assert!(matches!(a.act(KeyAction::FontUp, 1_000), Ask::FontUp));
    assert_eq!(a.st.timers.reflow_pending_at, Some(1_000 + 250_000_000));
    assert_eq!(a.detached[0].ui.reflow_pending_at, Some(1_000 + 250_000_000));
    assert!(a.st.due.persist && a.detached[0].ui.paint);
}

#[test]
fn composed_text_overrides_the_plain_key() {
    assert!(is_composed("é"));
    assert!(is_composed("aé"));
    assert!(!is_composed("ab"));
    assert!(!is_composed(""));
    assert!(!is_composed("é\r"));
    let k = KeyPress { alt: true, text: Some("é".to_string()), ..typed("e") };
    assert!(matches!(resolve(k), Decision::Send(b) if b == "é".as_bytes()));
    let k = KeyPress { dead_key: Some(vec![0xc3, 0xa9]), ..typed("e") };
    assert!(matches!(resolve(k), Decision::Send(b) if b == [0xc3, 0xa9]));
}

#[test]
fn key_letters_and_modifiers() {
    assert_eq!(keycode_letter(KeyCode::KeyQ), Some('q'));
    assert_eq!(keycode_letter(KeyCode::Other), None);
    assert_eq!(single_char(&LogicalKey::Character("é".to_string())), Some('é'));
    assert_eq!(single_char(&LogicalKey::Character("ab".to_string())), None);
    assert_eq!(hint_base_letter(None, &LogicalKey::Character("D".to_string())), Some('d'));
    assert_eq!(
        hint_base_letter(Some(KeyCode::KeyF), &LogicalKey::Character("ф".to_string())),
        Some('f'),
    );
    assert_eq!(hint_base_letter(None, &LogicalKey::Enter), None);
    assert!(link_modifier_held(true, false, false));
    assert!(link_modifier_held(false, true, true));
    assert!(!link_modifier_held(false, true, false));
}

#[test]
fn a_detached_window_sends_keys_to_its_own_shell() {
    let mut a = app(2);
    let d = a.detach_tab(0).expect("two tabs");
    a.detach_done(d, 7);
    assert!(matches!(a.detached_key(0, typed("x"), &env(5)), Ask::Send(b) if b == b"x"));
    assert!(matches!(a.detached_key(0, chord(KeyAction::NewTab), &env(5)), Ask::SpawnTab));
    assert!(matches!(a.detached_key(0, chord(KeyAction::CopyMode), &env(5)), Ask::Nothing));
    assert!(matches!(a.detached_key(5, typed("x"), &env(5)), Ask::Nothing));
    assert!(matches!(a.detached_ime(0, "é", 5), Ask::Send(b) if b == "é".as_bytes()));
}

#[test]
fn a_keyboard_selection_is_the_same_from_either_end() {
    let mut a = app(1);
    let s = Screen {
        rows: 24,
        cols: 80,
        cursor_row: 3,
        cursor_col: 5,
        cursor_visible: true,
        alt_screen: false,
    };
    a.st = a.st.enter_copy_mode(false, Some(10), s);
    let down = a.st.copy_toggle_select(false, 3, Some(10)).0.copy_moved(9, 2, 24, 80);
    let there = down.copy_span(9).expect("a selection");
    let begun = a.st.copy_moved(9, 2, 24, 80).copy_toggle_select(false, 9, Some(10)).0;
    let back = begun.copy_moved(3, 5, 24, 80).copy_span(3).expect("a selection");
    assert_eq!((there.start, there.end), (back.start, back.end));
}

#[test]
fn no_action_closes_anything_unasked() {
    for a in [
        KeyAction::TogglePanel,
        KeyAction::ClosePanel,
        KeyAction::OpenPalette,
        KeyAction::NewTab,
        KeyAction::CloseTab,
        KeyAction::DetachTab,
        KeyAction::NextTab,
        KeyAction::PrevTab,
        KeyAction::SelectTab(0),
        KeyAction::OpacityUp,
        KeyAction::OpacityDown,
        KeyAction::ScrollPageUp,
        KeyAction::ScrollPageDown,
        KeyAction::FontUp,
        KeyAction::FontDown,
        KeyAction::FontReset,
        KeyAction::Copy,
        KeyAction::Paste,
        KeyAction::SearchToggle,
        KeyAction::PrevPrompt,
        KeyAction::NextPrompt,
        KeyAction::SelectAll,
        KeyAction::Quit,
        KeyAction::HintMode,
        KeyAction::CopyMode,
    ] {
        let mut x = app(2);
        x.key_pressed(chord(a), &env(5));
        assert_eq!(ids(&x), vec![10, 11]);
        assert!(!x.st.due.exit);
    }
}
