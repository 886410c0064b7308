use jetty_app::bytes::cap_text;
use jetty_app::help::{compute_help_rows, HelpKeys};
use jetty_app::shells::{
    autostart_path, base_name, candidate_shells, cycle_shell, desktop_entry, detect_shells,
    fallback_shells,
    notice_line, offer_shells, shell_display_name,
};
use jetty_app::text::{char_is_control, char_is_white, push_printable, str_eq};

fn strings(list: &[&str]) -> Vec<String> {
    list.iter().map(|s| s.to_string()).collect()
}

#[test]
fn the_list_of_shells_skips_comments_and_blanks() {
    let got = candidate_shells("# shells\n\n/bin/sh\n  /bin/bash  \n#/bin/zsh\nrelative\n");
    assert!(got.contains(&"/bin/sh".to_string()));
    assert!(got.contains(&"/bin/bash".to_string()));
    assert!(!got.contains(&"/bin/zsh".to_string()));
}

#[test]
fn shells_are_offered_once_by_name_where_they_exist() {
    let cands = strings(&["/bin/bash", "/usr/bin/bash", "/bin/zsh", "/bin/fish"]);
    assert_eq!(
        offer_shells(&cands, &vec![true, true, false, true]),
        strings(&["/bin/bash", "/bin/fish"]),
    );
    assert!(!fallback_shells().is_empty());
}

#[test]
fn the_usual_shells_stand_in_for_an_empty_list_only() {
    let listed = "# shells\n/bin/zsh\n/usr/bin/zsh\n/bin/gone\n/\n/bin/dash\n";
    let present = strings(&["/bin/zsh", "/usr/bin/zsh", "/", "/bin/dash", "/bin/bash"]);
    assert_eq!(detect_shells(listed, &present), strings(&["/bin/zsh", "/bin/dash"]));
    let present = strings(&["/", "/bin/bash", "/usr/bin/fish"]);
    assert_eq!(detect_shells(listed, &present), strings(&["/usr/bin/fish", "/bin/bash"]));
    let present = strings(&["/bin/bash", "/usr/bin/bash"]);
    assert_eq!(detect_shells("", &present), strings(&["/usr/bin/bash"]));
    assert!(detect_shells(listed, &Vec::new()).is_empty());
}

#[test]
fn shells_cycle_through_the_default() {
    let offered = strings(&["/bin/bash", "/bin/zsh"]);
    assert_eq!(cycle_shell(&offered, "", true), "/bin/bash");
    assert_eq!(cycle_shell(&offered, "/bin/bash", true), "/bin/zsh");
    assert_eq!(cycle_shell(&offered, "/bin/zsh", true), "");
    assert_eq!(cycle_shell(&offered, "", false), "/bin/zsh");
    assert_eq!(cycle_shell(&Vec::new(), "", true), "");
}

#[test]
fn shells_are_shown_by_their_file_name() {
    assert_eq!(base_name("/usr/bin/zsh"), Some("zsh".to_string()));
    assert_eq!(shell_display_name("/usr/bin/zsh"), "zsh");
    assert_eq!(shell_display_name("fish"), "fish");
    assert_ne!(shell_display_name(""), "");
}

#[test]
fn the_autostart_entry_names_the_program() {
    let e = desktop_entry("/opt/my apps/jetty");
    assert!(e.starts_with("[Desktop Entry]\n"));
    assert!(e.contains("\nExec=\"/opt/my apps/jetty\"\n"));
    assert!(e.ends_with("X-GNOME-Autostart-enabled=true\n"));
}

#[test]
fn the_autostart_entry_stands_below_the_configuration_directory() {
    let some = |s: &str| Some(s.to_string());
    assert_eq!(autostart_path(some("/x"), some("/home/u")), "/x/autostart/jetty.desktop");
    assert_eq!(autostart_path(some("/x/"), None), "/x/autostart/jetty.desktop");
    assert_eq!(
        autostart_path(some(""), some("/home/u")),
        "/home/u/.config/autostart/jetty.desktop",
    );
    assert_eq!(autostart_path(None, None), ".config/autostart/jetty.desktop");
    assert_eq!(autostart_path(None, some("")), ".config/autostart/jetty.desktop");
}

fn keys() -> HelpKeys {
    HelpKeys {
        new_tab: strings(&["Ctrl+Shift+N"]),
        close_tab: strings(&["Ctrl+Shift+W"]),
        next_tab: strings(&["Ctrl+Tab", "Ctrl+PageDown"]),
        prev_tab: strings(&["Ctrl+Shift+Tab"]),
        detach_tab: strings(&["Ctrl+Shift+D"]),
        open_palette: strings(&["Ctrl+Shift+P"]),
        toggle_settings: strings(&["Ctrl+,"]),
        font_up: strings(&["Ctrl+="]),
        font_down: strings(&["Ctrl+-"]),
        font_reset: strings(&["Ctrl+0"]),
        opacity_up: strings(&["Ctrl+Shift+Up"]),
        opacity_down: strings(&["Ctrl+Shift+Down"]),
        copy: strings(&["Ctrl+Shift+C"]),
        paste: strings(&["Ctrl+Shift+V"]),
        search_toggle: strings(&["Ctrl+Shift+F"]),
        prev_prompt: strings(&[]),
        next_prompt: strings(&[]),
        hint_mode: strings(&["Ctrl+Shift+H"]),
        copy_mode: strings(&["Ctrl+Shift+X"]),
    }
}

#[test]
fn the_help_text_follows_the_bindings() {
    let rows = compute_help_rows(&keys(), "F10", "vim/htop");
    assert!(rows.iter().any(|r| r.contains("Ctrl+Shift+N")));
    assert!(rows.iter().any(|r| r.contains("F10")));
    assert!(rows.iter().any(|r| r == "Shift+drag — Select text over mouse apps (vim/htop)"));
    let rebound = HelpKeys { new_tab: strings(&["Alt+N"]), ..keys() };
    let other = compute_help_rows(&rebound, "F10", "vim/htop");
    assert!(other.iter().any(|r| r.contains("Alt+N")));
    assert!(!other.iter().any(|r| r.contains("Ctrl+Shift+N")));
    assert_eq!(other.len(), rows.len());
}

#[test]
fn typed_text_loses_its_control_characters() {
    let mut s = String::from("a");
    assert!(push_printable(&mut s, "b\n\u{7f}é\u{85}c"));
    assert_eq!(s, "abéc");
    assert!(!push_printable(&mut s, "\n"));
    assert!(char_is_control('\u{9f}') && !char_is_control('\u{a0}'));
    assert!(char_is_white(' ') && char_is_white('\u{3000}') && !char_is_white('x'));
    assert!(str_eq("é", "é") && !str_eq("é", "e"));
}

#[test]
fn capped_text_ends_at_a_character() {
    assert_eq!(cap_text("a£b", 2), "a");
    assert_eq!(cap_text("a£b", 3), "a£");
    assert_eq!(cap_text("a£b", 99), "a£b");
}

#[test]
fn notices_are_written_in_yellow() {
    assert_eq!(notice_line("no zsh"), "\u{1b}[33mno zsh\u{1b}[0m\r\n");
}
