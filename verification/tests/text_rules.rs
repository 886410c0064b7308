use jetty_app::bytes::{
    floor_char_boundary, is_printable_keystroke, paste_bytes, strip_paste_end, url_scheme_allowed,
};
use jetty_app::hints::shift_hint_live_in;
use jetty_app::reload::hash_config_str;
use jetty_app::shells::desktop_exec_arg;
use jetty_app::steps::{cycle_notify_min, cycle_scrollback, format_scrollback};
use jetty_app::titles::resolve_title;

#[test]
fn plain_path_is_quoted_verbatim() {
    assert_eq!(desktop_exec_arg("/usr/local/bin/jetty"), "\"/usr/local/bin/jetty\"");
}

#[test]
fn path_with_spaces_stays_one_argument() {
    assert_eq!(
        desktop_exec_arg("/home/user/My Builds/jetty"),
        "\"/home/user/My Builds/jetty\"",
    );
}

#[test]
fn percent_is_field_code_escaped() {
    assert_eq!(desktop_exec_arg("/opt/100%/jetty"), "\"/opt/100%%/jetty\"");
}

#[test]
fn reserved_chars_get_double_backslash_string_escape() {
    let out = desktop_exec_arg("/p/$x/`y`/a\\b/j");
    let expected = String::from("\"")
        + "/p/"
        + "\\\\$"
        + "x/"
        + "\\\\`" + "y" + "\\\\`"
        + "/a"
        + "\\\\\\\\"
        + "b/j"
        + "\"";
    assert_eq!(out, expected);
    assert!(out.contains("\\\\$"), "literal $ must be doubly escaped");
}

#[test]
fn printable_ascii_lowercase() {
    assert!(is_printable_keystroke(b"a"));
}

#[test]
fn printable_ascii_uppercase() {
    assert!(is_printable_keystroke(b"A"));
}

#[test]
fn printable_utf8_multibyte() {
    assert!(is_printable_keystroke("£".as_bytes()));
}

#[test]
fn empty_is_not_printable() {
    assert!(!is_printable_keystroke(b""));
}

#[test]
fn escape_sequence_arrow_up_is_not_printable() {
    assert!(!is_printable_keystroke(b"\x1b[A"));
}

#[test]
fn enter_is_not_printable() {
    assert!(!is_printable_keystroke(b"\r"));
}

#[test]
fn tab_is_not_printable() {
    assert!(!is_printable_keystroke(b"\t"));
}

#[test]
fn backspace_del_is_not_printable() {
    assert!(!is_printable_keystroke(b"\x7f"));
}

#[test]
fn ctrl_c_is_not_printable() {
    assert!(!is_printable_keystroke(b"\x03"));
}

#[test]
fn cycle_scrollback_snaps_and_wraps() {
    assert_eq!(cycle_scrollback(10_000, true), 25_000);
    assert_eq!(cycle_scrollback(100_000, true), 1_000, "forward wraps");
    assert_eq!(cycle_scrollback(1_000, false), 100_000, "backward wraps");
    assert_eq!(cycle_scrollback(12_345, true), 25_000);
    assert_eq!(cycle_scrollback(12_345, false), 5_000);
}

#[test]
fn format_scrollback_steps_and_verbatim() {
    for s in [1_000usize, 5_000, 10_000, 25_000, 50_000, 100_000] {
        assert_eq!(format_scrollback(s), format!("{}k", s / 1000));
    }
    assert_eq!(format_scrollback(12_345), "12345");
    assert_eq!(format_scrollback(100), "100");
}

#[test]
fn cycle_notify_min_snaps_and_wraps() {
    assert_eq!(cycle_notify_min(10, true), 30);
    assert_eq!(cycle_notify_min(300, true), 5, "forward wraps");
    assert_eq!(cycle_notify_min(5, false), 300, "backward wraps");
    assert_eq!(cycle_notify_min(50, true), 120);
    assert_eq!(cycle_notify_min(50, false), 30);
}

#[test]
fn allows_http_https_file_case_insensitively() {
    assert!(url_scheme_allowed("http://example.com"));
    assert!(url_scheme_allowed("https://example.com/a?b=c"));
    assert!(url_scheme_allowed("file:///tmp/report.html"));
    assert!(url_scheme_allowed("HTTPS://EXAMPLE.COM"));
    assert!(url_scheme_allowed("HtTp://x.io"));
}

#[test]
fn rejects_everything_else() {
    assert!(!url_scheme_allowed("javascript:alert(1)"));
    assert!(!url_scheme_allowed("mailto:me@example.com"));
    assert!(!url_scheme_allowed("ftp://example.com"));
    assert!(!url_scheme_allowed(""));
    assert!(!url_scheme_allowed("example.com"));
    assert!(!url_scheme_allowed("xhttps://example.com"));
    assert!(!url_scheme_allowed("héllo→"));
}

#[test]
fn plain_text_borrows_unchanged() {
    let s = "echo hello\nworld\t!";
    let out = strip_paste_end(s.as_bytes());
    assert!(matches!(out, std::borrow::Cow::Borrowed(_)));
    assert_eq!(&*out, s.as_bytes());
}

fn contains(hay: &[u8], needle: &[u8]) -> bool {
    hay.windows(needle.len()).any(|w| w == needle)
}

#[test]
fn embedded_end_marker_is_removed() {
    let out = strip_paste_end(b"a\x1b[201~rm -rf ~\n");
    assert_eq!(&*out, b"arm -rf ~\n");
    assert!(!contains(&out, b"\x1b[201~"));
}

#[test]
fn reformed_marker_across_removal_is_defeated() {
    let out = strip_paste_end(b"\x1b[2\x1b[201~01~");
    assert!(!contains(&out, b"\x1b[201~"));
}

#[test]
fn multiple_markers_all_removed() {
    let out = strip_paste_end(b"\x1b[201~x\x1b[201~y\x1b[201~");
    assert_eq!(&*out, b"xy");
}

#[test]
fn bracketed_paste_is_framed_and_plain_paste_is_not() {
    assert_eq!(paste_bytes(b"ls\n", true), b"\x1b[200~ls\n\x1b[201~".to_vec());
    assert_eq!(paste_bytes(b"ls\n", false), b"ls\n".to_vec());
    assert_eq!(paste_bytes(b"", true), Vec::<u8>::new());
    assert_eq!(paste_bytes(b"\x1b[201~", true), b"\x1b[200~\x1b[201~".to_vec());
}

#[test]
fn osc_title_applies_when_not_renamed() {
    assert_eq!(
        resolve_title(Some("x".to_string()), false, "Tab 2"),
        Some("x".to_string())
    );
}

#[test]
fn manual_rename_wins_forever() {
    assert_eq!(resolve_title(Some("x".to_string()), true, "Tab 2"), None);
    assert_eq!(resolve_title(None, true, "Tab 2"), None);
}

#[test]
fn reset_restores_default() {
    assert_eq!(resolve_title(None, false, "Tab 2"), Some("Tab 2".to_string()));
}

#[test]
fn live_only_in_the_tagged_window() {
    let now = 10_000_000_000u64;
    let hint = Some((now + 3_500_000_000, 7u64));
    assert!(shift_hint_live_in(hint, 7, now));
    assert!(!shift_hint_live_in(hint, 8, now));
}

#[test]
fn expired_or_absent_hint_is_dead_everywhere() {
    let now = 10_000_000_000u64;
    let expired = Some((now - 1_000_000, 7u64));
    assert!(!shift_hint_live_in(expired, 7, now));
    assert!(!shift_hint_live_in(None, 7, now));
}

fn is_own_write(observed: u64, last_written: Option<u64>) -> bool {
    last_written == Some(observed)
}

#[test]
fn self_write_hash_guard() {
    let a = "theme = \"dracula\"\nopacity = 0.9\n";
    let b = "theme = \"nord\"\nopacity = 0.9\n";
    assert_eq!(hash_config_str(a), hash_config_str(a));
    assert_ne!(hash_config_str(a), hash_config_str(b));
    assert!(is_own_write(hash_config_str(a), Some(hash_config_str(a))));
    assert!(!is_own_write(hash_config_str(b), Some(hash_config_str(a))));
    assert!(!is_own_write(hash_config_str(a), None));
}

#[test]
fn osc52_reply_cap_never_splits_a_char() {
    let s = "a£b€c";
    for max in 0..=s.len() + 2 {
        let b = floor_char_boundary(s, max);
        assert!(b <= s.len());
        assert!(s.is_char_boundary(b), "cap {max} landed mid-char at {b}");
    }
    assert_eq!(floor_char_boundary(s, s.len()), s.len());
    assert_eq!(floor_char_boundary(s, s.len() + 10), s.len());
}

#[test]
fn stripping_twice_is_stripping_once() {
    for s in [&b"a\x1b[201~b"[..], &b"\x1b[2\x1b[201~01~x"[..], &b"plain"[..]] {
        let once = strip_paste_end(s).into_owned();
        assert_eq!(&*strip_paste_end(&once), &once[..]);
    }
}
