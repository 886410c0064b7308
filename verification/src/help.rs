//! The rows of the help text, from the key bindings in use.

use vstd::prelude::*;

use crate::state::texts;

verus! {

/// The chords bound to the actions that the help text names.
#[derive(Debug)]
pub struct HelpKeys {
    pub new_tab: Vec<String>,
    pub close_tab: Vec<String>,
    pub next_tab: Vec<String>,
    pub prev_tab: Vec<String>,
    pub detach_tab: Vec<String>,
    pub open_palette: Vec<String>,
    pub toggle_settings: Vec<String>,
    pub font_up: Vec<String>,
    pub font_down: Vec<String>,
    pub font_reset: Vec<String>,
    pub opacity_up: Vec<String>,
    pub opacity_down: Vec<String>,
    pub copy: Vec<String>,
    pub paste: Vec<String>,
    pub search_toggle: Vec<String>,
    pub prev_prompt: Vec<String>,
    pub next_prompt: Vec<String>,
    pub hint_mode: Vec<String>,
    pub copy_mode: Vec<String>,
}

/// The first `n` chords with " / " between them.
pub open spec fn joined(chords: Seq<Seq<char>>, n: int) -> Seq<char>
    decreases n,
{
    if n <= 0 {
        seq![]
    } else if n == 1 {
        chords[0]
    } else {
        joined(chords, n - 1) + " / "@ + chords[n - 1]
    }
}

/// Every chord of an action.
pub open spec fn every(chords: Seq<Seq<char>>) -> Seq<char> {
    if chords.len() == 0 {
        "(unbound)"@
    } else {
        joined(chords, chords.len() as int)
    }
}

/// The first chord of an action.
pub open spec fn chief(chords: Seq<Seq<char>>) -> Seq<char> {
    if chords.len() == 0 {
        "(unbound)"@
    } else {
        chords[0]
    }
}

fn all_chords(chords: &Vec<String>) -> (r: String)
    ensures
        r@ == every(texts(chords@)),
{
    if chords.len() == 0 {
        return "(unbound)".to_owned();
    }
    assert(texts(chords@)[0] == chords@[0]@);
    let mut s: String = chords[0].clone();
    let mut i: usize = 1;
    while i < chords.len()
        invariant
            1 <= i <= chords@.len(),
            s@ == joined(texts(chords@), i as int),
        decreases chords@.len() - i,
    {
        assert(texts(chords@)[i as int] == chords@[i as int]@);
        s.append(" / ");
        s.append(chords[i].as_str());
        i = i + 1;
    }
    s
}

fn first_chord(chords: &Vec<String>) -> (r: String)
    ensures
        r@ == chief(texts(chords@)),
{
    if chords.len() == 0 {
        return "(unbound)".to_owned();
    }
    assert(texts(chords@)[0] == chords@[0]@);
    chords[0].clone()
}

fn suffixed(mut s: String, tail: &str) -> (r: String)
    ensures
        r@ == s@ + tail@,
{
    s.append(tail);
    s
}

fn paired(a: &Vec<String>, b: &Vec<String>, tail: &str) -> (r: String)
    ensures
        r@ == chief(texts(a@)) + " / "@ + chief(texts(b@)) + tail@,
{
    let mut s: String = first_chord(a);
    s.append(" / ");
    s.append(first_chord(b).as_str());
    s.append(tail);
    s
}

/// The rows about tabs and windows.
pub open spec fn tab_rows(k: HelpKeys, hotkey: Seq<char>) -> Seq<Seq<char>> {
    seq![
        hotkey + " (configurable) — Summon / hide"@,
        every(texts(k.new_tab@)) + " — New tab"@,
        every(texts(k.close_tab@)) + " — Close tab"@,
        chief(texts(k.next_tab@)) + " / "@ + chief(texts(k.prev_tab@)) + " — Next / Prev tab"@,
        "Ctrl+1..9 — Jump to tab"@,
        every(texts(k.detach_tab@))
            + " / drag tab off bar — Detach / reattach (right-click tab for menu)"@,
        "Double-click tab / top bar — Rename / Maximize"@,
        chief(texts(k.open_palette@)) + " — Command palette   (Settings: "@ + every(
            texts(k.toggle_settings@),
        ) + ")"@,
    ]
}

/// The rows about what the terminal shows.
pub open spec fn view_rows(k: HelpKeys) -> Seq<Seq<char>> {
    seq![
        chief(texts(k.font_up@)) + " / "@ + chief(texts(k.font_down@)) + " / "@ + chief(
            texts(k.font_reset@),
        ) + " — Font size"@,
        chief(texts(k.opacity_up@)) + " / "@ + chief(texts(k.opacity_down@)) + " — Transparency"@,
        chief(texts(k.copy@)) + " / "@ + chief(texts(k.paste@)) + " — Copy / Paste"@,
        chief(texts(k.search_toggle@))
            + " — Search scrollback (Enter/F3 next, Shift+Enter prev, Esc close)"@,
        chief(texts(k.prev_prompt@)) + " / "@ + chief(texts(k.next_prompt@))
            + " — Prev / next prompt (shell integration)"@,
        chief(texts(k.hint_mode@))
            + " — Hint mode: label + copy URLs/paths (Alt = open URL, Esc cancel)"@,
        chief(texts(k.copy_mode@))
            + " — Copy-mode: keyboard select (hjkl w/b/e v/V y=yank, Esc exit)"@,
    ]
}

/// The rows that no binding changes; `mouse_apps` are programs that read the
/// mouse, for example.
pub open spec fn fixed_rows(mouse_apps: Seq<char>) -> Seq<Seq<char>> {
    seq![
        "Ctrl+click — Open URL (Ctrl+hover underlines it)"@,
        "Ctrl+L — Clear"@,
        "PageUp / PageDown — Scroll"@,
        "Left-drag — Select text (auto-copies)"@,
        "Shift+drag — Select text over mouse apps ("@ + mouse_apps + ")"@,
        "Right-click — Context menu (Copy/Paste/Select All/Clear/Close Tab)"@,
        "Drag top bar — Move window"@,
        "Drag edges/corners — Resize"@,
        "Ctrl+D — Close shell (sends EOF)"@,
        "Esc — Close this help"@,
    ]
}

proof fn lemma_push(before: Seq<String>, s: String)
    ensures
        texts(before.push(s)) == texts(before).push(s@),
{
    assert(texts(before.push(s)) =~= texts(before).push(s@));
}

fn add_row(rows: &mut Vec<String>, s: String)
    ensures
        texts(final(rows)@) == texts(old(rows)@).push(s@),
{
    proof {
        lemma_push(rows@, s);
    }
    rows.push(s);
}

fn add_tab_rows(rows: &mut Vec<String>, k: &HelpKeys, hotkey: &str)
    requires
        old(rows)@.len() == 0,
    ensures
        texts(final(rows)@) == tab_rows(*k, hotkey@),
{
    let ghost want = tab_rows(*k, hotkey@);
    add_row(rows, suffixed(hotkey.to_owned(), " (configurable) — Summon / hide"));
    add_row(rows, suffixed(all_chords(&k.new_tab), " — New tab"));
    add_row(rows, suffixed(all_chords(&k.close_tab), " — Close tab"));
    add_row(rows, paired(&k.next_tab, &k.prev_tab, " — Next / Prev tab"));
    add_row(rows, "Ctrl+1..9 — Jump to tab".to_owned());
    add_row(
        rows,
        suffixed(
            all_chords(&k.detach_tab),
            " / drag tab off bar — Detach / reattach (right-click tab for menu)",
        ),
    );
    add_row(rows, "Double-click tab / top bar — Rename / Maximize".to_owned());
    let mut s: String = first_chord(&k.open_palette);
    s.append(" — Command palette   (Settings: ");
    s.append(all_chords(&k.toggle_settings).as_str());
    s.append(")");
    add_row(rows, s);
    assert(texts(rows@) =~= want);
}

fn add_view_rows(rows: &mut Vec<String>, k: &HelpKeys)
    ensures
        texts(final(rows)@) == texts(old(rows)@) + view_rows(*k),
{
    let ghost want = texts(rows@) + view_rows(*k);
    let mut s: String = first_chord(&k.font_up);
    s.append(" / ");
    s.append(first_chord(&k.font_down).as_str());
    s.append(" / ");
    s.append(first_chord(&k.font_reset).as_str());
    s.append(" — Font size");
    add_row(rows, s);
    add_row(rows, paired(&k.opacity_up, &k.opacity_down, " — Transparency"));
    add_row(rows, paired(&k.copy, &k.paste, " — Copy / Paste"));
    add_row(
        rows,
        suffixed(
            first_chord(&k.search_toggle),
            " — Search scrollback (Enter/F3 next, Shift+Enter prev, Esc close)",
        ),
    );
    add_row(
        rows,
        paired(&k.prev_prompt, &k.next_prompt, " — Prev / next prompt (shell integration)"),
    );
    add_row(
        rows,
        suffixed(
            first_chord(&k.hint_mode),
            " — Hint mode: label + copy URLs/paths (Alt = open URL, Esc cancel)",
        ),
    );
    add_row(
        rows,
        suffixed(
            first_chord(&k.copy_mode),
            " — Copy-mode: keyboard select (hjkl w/b/e v/V y=yank, Esc exit)",
        ),
    );
    assert(texts(rows@) =~= want);
}

fn add_fixed_rows(rows: &mut Vec<String>, mouse_apps: &str)
    ensures
        texts(final(rows)@) == texts(old(rows)@) + fixed_rows(mouse_apps@),
{
    let ghost want = texts(rows@) + fixed_rows(mouse_apps@);
    add_row(rows, "Ctrl+click — Open URL (Ctrl+hover underlines it)".to_owned());
    add_row(rows, "Ctrl+L — Clear".to_owned());
    add_row(rows, "PageUp / PageDown — Scroll".to_owned());
    add_row(rows, "Left-drag — Select text (auto-copies)".to_owned());
    let mut s: String = "Shift+drag — Select text over mouse apps (".to_owned();
    s.append(mouse_apps);
    s.append(")");
    add_row(rows, s);
    add_row(rows, "Right-click — Context menu (Copy/Paste/Select All/Clear/Close Tab)".to_owned());
    add_row(rows, "Drag top bar — Move window".to_owned());
    add_row(rows, "Drag edges/corners — Resize".to_owned());
    add_row(rows, "Ctrl+D — Close shell (sends EOF)".to_owned());
    add_row(rows, "Esc — Close this help".to_owned());
    assert(texts(rows@) =~= want);
}

/// The rows of the help text, for the bindings and the hotkey in use;
/// `mouse_apps` names programs that read the mouse, for example.
pub fn compute_help_rows(k: &HelpKeys, hotkey: &str, mouse_apps: &str) -> (r: Vec<String>)
    ensures
        texts(r@) == tab_rows(*k, hotkey@) + view_rows(*k) + fixed_rows(mouse_apps@),
{
    let mut rows: Vec<String> = Vec::new();
    add_tab_rows(&mut rows, k, hotkey);
    add_view_rows(&mut rows, k);
    add_fixed_rows(&mut rows, mouse_apps);
    rows
}

/// Chords are joined by a slash: one stands alone, each further one follows
/// the others.
pub proof fn law_chords_are_joined(chords: Seq<Seq<char>>, n: int)
    requires
        0 < n < chords.len(),
    ensures
        joined(chords, 0).len() == 0,
        joined(chords, 1) == chords[0],
        joined(chords, n + 1) == joined(chords, n) + seq![' ', '/', ' '] + chords[n],
{
    reveal_strlit(" / ");
    assert(" / "@ =~= seq![' ', '/', ' ']);
}

/// A key that is bound shows its chords, the first one first; one that is not
/// says so.
pub proof fn law_bound_keys_show_their_chords(chords: Seq<Seq<char>>)
    ensures
        chords.len() == 0 ==> every(chords) == "(unbound)"@ && chief(chords) == "(unbound)"@,
        chords.len() > 0 ==> chief(chords) == chords[0],
        chords.len() == 1 ==> every(chords) == chords[0],
        chords.len() == 2 ==> every(chords) == chords[0] + seq![' ', '/', ' '] + chords[1],
{
    reveal_strlit(" / ");
    reveal_with_fuel(joined, 3);
    assert(" / "@ =~= seq![' ', '/', ' ']);
}

/// Each row of the tabs' keys begins with the chords it is about.
pub proof fn law_tab_rows_name_their_keys(k: HelpKeys, hotkey: Seq<char>)
    ensures
        tab_rows(k, hotkey).len() == 8,
        hotkey.is_prefix_of(tab_rows(k, hotkey)[0]),
        every(texts(k.new_tab@)).is_prefix_of(tab_rows(k, hotkey)[1]),
        every(texts(k.close_tab@)).is_prefix_of(tab_rows(k, hotkey)[2]),
        (chief(texts(k.next_tab@)) + seq![' ', '/', ' '] + chief(
            texts(k.prev_tab@),
        )).is_prefix_of(tab_rows(k, hotkey)[3]),
        every(texts(k.detach_tab@)).is_prefix_of(tab_rows(k, hotkey)[5]),
        chief(texts(k.open_palette@)).is_prefix_of(tab_rows(k, hotkey)[7]),
        (every(texts(k.toggle_settings@)) + seq![')']).is_suffix_of(tab_rows(k, hotkey)[7]),
{
    reveal_strlit(" / ");
    reveal_strlit(")");
    assert(" / "@ =~= seq![' ', '/', ' ']);
    assert(")"@ =~= seq![')']);
    let rows = tab_rows(k, hotkey);
    assert(hotkey =~= rows[0].subrange(0, hotkey.len() as int));
    let a = every(texts(k.new_tab@));
    assert(a =~= rows[1].subrange(0, a.len() as int));
    let b = every(texts(k.close_tab@));
    assert(b =~= rows[2].subrange(0, b.len() as int));
    let c = chief(texts(k.next_tab@)) + seq![' ', '/', ' '] + chief(texts(k.prev_tab@));
    assert(c =~= rows[3].subrange(0, c.len() as int));
    let d = every(texts(k.detach_tab@));
    assert(d =~= rows[5].subrange(0, d.len() as int));
    let e = chief(texts(k.open_palette@));
    assert(e =~= rows[7].subrange(0, e.len() as int));
    let f = every(texts(k.toggle_settings@)) + seq![')'];
    assert(f =~= rows[7].subrange(rows[7].len() - f.len(), rows[7].len() as int));
}

/// Each row of the view's keys begins with the chords it is about.
pub proof fn law_view_rows_name_their_keys(k: HelpKeys)
    ensures
        view_rows(k).len() == 7,
        (chief(texts(k.font_up@)) + seq![' ', '/', ' '] + chief(texts(k.font_down@)) + seq![
            ' ',
            '/',
            ' ',
        ] + chief(texts(k.font_reset@))).is_prefix_of(view_rows(k)[0]),
        (chief(texts(k.opacity_up@)) + seq![' ', '/', ' '] + chief(
            texts(k.opacity_down@),
        )).is_prefix_of(view_rows(k)[1]),
        (chief(texts(k.copy@)) + seq![' ', '/', ' '] + chief(texts(k.paste@))).is_prefix_of(
            view_rows(k)[2],
        ),
        chief(texts(k.search_toggle@)).is_prefix_of(view_rows(k)[3]),
        (chief(texts(k.prev_prompt@)) + seq![' ', '/', ' '] + chief(
            texts(k.next_prompt@),
        )).is_prefix_of(view_rows(k)[4]),
        chief(texts(k.hint_mode@)).is_prefix_of(view_rows(k)[5]),
        chief(texts(k.copy_mode@)).is_prefix_of(view_rows(k)[6]),
{
    reveal_strlit(" / ");
    assert(" / "@ =~= seq![' ', '/', ' ']);
    let rows = view_rows(k);
    let a = chief(texts(k.font_up@)) + seq![' ', '/', ' '] + chief(texts(k.font_down@)) + seq![
        ' ',
        '/',
        ' ',
    ] + chief(texts(k.font_reset@));
    assert(a =~= rows[0].subrange(0, a.len() as int));
    let b = chief(texts(k.opacity_up@)) + seq![' ', '/', ' '] + chief(texts(k.opacity_down@));
    assert(b =~= rows[1].subrange(0, b.len() as int));
    let c = chief(texts(k.copy@)) + seq![' ', '/', ' '] + chief(texts(k.paste@));
    assert(c =~= rows[2].subrange(0, c.len() as int));
    let d = chief(texts(k.search_toggle@));
    assert(d =~= rows[3].subrange(0, d.len() as int));
    let e = chief(texts(k.prev_prompt@)) + seq![' ', '/', ' '] + chief(texts(k.next_prompt@));
    assert(e =~= rows[4].subrange(0, e.len() as int));
    let f = chief(texts(k.hint_mode@));
    assert(f =~= rows[5].subrange(0, f.len() as int));
    let g = chief(texts(k.copy_mode@));
    assert(g =~= rows[6].subrange(0, g.len() as int));
}

} // verus!
