//! The modes that take the keyboard: the command palette, the hint labels and
//! the keyboard cursor.

use vstd::prelude::*;

use crate::bytes::{openable, url_scheme_allowed};
use crate::input::{
    hint_base_letter, base_letter, Ask, AskView, KeyPress, KeyView, LogicalKey, LogicalView,
};
use crate::state::{
    hint_view, texts, token_views, App, AppView, HintState, HintToken, HintView, Overlays, Palette,
    PaletteCmd, PaletteView, Stage, TokenKind,
};

verus! {

impl PaletteView {
    /// The selection moved by `delta` rows, kept on the list, and the visible
    /// part moved as little as shows it.
    pub open spec fn moved(self, delta: int) -> PaletteView {
        let n = self.hits.len() as int;
        let next = if self.selected + delta < 0 {
            0
        } else if self.selected + delta >= n {
            n - 1
        } else {
            self.selected + delta
        };
        if n == 0 {
            self
        } else {
            PaletteView {
                selected: next,
                scroll: if next < self.scroll {
                    next
                } else if next >= self.scroll + self.rows {
                    next + 1 - self.rows
                } else {
                    self.scroll
                },
                ..self
            }
        }
    }

    /// The palette at rest: it holds no text and no commands.
    pub open spec fn cleared(self) -> PaletteView {
        PaletteView { query: seq![], hits: seq![], ..self }
    }

    /// The selection back at the first row.
    pub open spec fn at_top(self) -> PaletteView {
        PaletteView { selected: 0, scroll: 0, ..self }
    }
}

impl Palette {
    fn move_by(&mut self, delta: i64)
        requires
            old(self)@.rows >= 1,
        ensures
            final(self)@ == old(self)@.moved(delta as int),
    {
        let n: usize = self.hits.len();
        if n == 0 {
            return;
        }
        let want: i128 = self.selected as i128 + delta as i128;
        let next: usize = if want < 0 {
            0
        } else if want >= n as i128 {
            n - 1
        } else {
            want as usize
        };
        self.selected = next;
        if next < self.scroll {
            self.scroll = next;
        } else if next - self.scroll >= self.rows as usize {
            self.scroll = next - self.rows as usize + 1;
        }
    }

    fn clear(&mut self)
        ensures
            final(self)@ == old(self)@.cleared(),
    {
        self.query.clear();
        self.hits = Vec::new();
    }

    fn to_top(&mut self)
        ensures
            final(self)@ == old(self)@.at_top(),
    {
        self.selected = 0;
        self.scroll = 0;
    }
}

impl AppView {
    /// The palette is closed and holds no commands.
    pub open spec fn close_palette(self) -> AppView {
        if !self.st.ui.palette_open {
            self
        } else {
            AppView {
                palette: self.palette.cleared(),
                st: (Stage { ui: Overlays { palette_open: false, ..self.st.ui }, ..self.st }).paint_main(),
                ..self
            }
        }
    }

    /// The palette opens, alone, with an empty query.
    pub open spec fn open_palette(self) -> AppView {
        let s = self.st.dismiss_menus();
        AppView {
            palette: PaletteView { query: seq![], ..self.palette.at_top() },
            st: (Stage {
                ui: Overlays { help_open: false, welcome_open: false, palette_open: true, ..s.ui },
                ..s
            }).paint_main(),
            ..self
        }
    }
}

impl App {
    /// Closes the palette.
    pub fn close_palette(&mut self)
        requires
            old(self)@.wf(),
        ensures
            final(self)@ == old(self)@.close_palette(),
            final(self)@.wf(),
    {
        if self.st.ui.palette_open {
            self.palette.clear();
            self.st = (Stage {
                ui: Overlays { palette_open: false, ..self.st.ui },
                ..self.st
            }).paint_main();
        }
    }

    /// Opens the palette; its commands are then gathered.
    pub fn open_palette(&mut self) -> (r: Ask)
        requires
            old(self)@.wf(),
        ensures
            final(self)@ == old(self)@.open_palette(),
            r@ == AskView::FillPalette,
            final(self)@.wf(),
    {
        self.palette.to_top();
        self.palette.query.clear();
        let s: Stage = self.st.dismiss_menus();
        self.st = (Stage {
            ui: Overlays { help_open: false, welcome_open: false, palette_open: true, ..s.ui },
            ..s
        }).paint_main();
        Ask::FillPalette
    }

    /// Takes the commands that match the palette's query.
    pub fn palette_filled(&mut self, hits: Vec<PaletteCmd>)
        requires
            old(self)@.wf(),
        ensures
            final(self)@ == (AppView {
                palette: PaletteView { hits: hits@, ..old(self)@.palette.at_top() },
                ..old(self)@
            }),
            final(self)@.wf(),
    {
        self.palette.hits = hits;
        self.palette.to_top();
    }

    /// Moves the palette's selection by `delta` rows.
    pub fn palette_move(&mut self, delta: i64)
        requires
            old(self)@.wf(),
        ensures
            final(self)@ == (AppView {
                palette: old(self)@.palette.moved(delta as int),
                ..old(self)@
            }),
            final(self)@.wf(),
    {
        self.palette.move_by(delta);
    }
}

/// However the selection moves, it is a row of the list and lies in the part
/// that is visible.
pub proof fn law_selection_stays_visible(p: PaletteView, delta: int)
    requires
        p.rows >= 1,
        p.hits.len() > 0,
        0 <= p.selected < p.hits.len(),
        0 <= p.scroll <= p.selected < p.scroll + p.rows,
    ensures
        0 <= p.moved(delta).selected < p.hits.len(),
        p.moved(delta).scroll <= p.moved(delta).selected < p.moved(delta).scroll + p.rows,
        0 <= p.moved(delta).scroll,
{
}

/// Some label is `t`, and `i` is the first such.
pub open spec fn first_label(labels: Seq<Seq<char>>, t: Seq<char>, i: int) -> bool {
    &&& 0 <= i < labels.len()
    &&& labels[i] == t
    &&& forall|j: int| 0 <= j < i ==> #[trigger] labels[j] != t
}

/// Some label begins with `t`.
pub open spec fn label_begins(labels: Seq<Seq<char>>, t: Seq<char>) -> bool {
    exists|i: int| 0 <= i < labels.len() && t.is_prefix_of(#[trigger] labels[i])
}

/// What a letter does in hint mode.
pub enum HintStep {
    /// The label is complete: its token, by index.
    Fire(int),
    /// Labels that begin with what was typed are left.
    Narrow(Seq<char>),
    /// No label begins like this.
    Ignore,
}

impl HintView {
    /// The letter `c` completes a label, narrows the labels, or is ignored.
    pub open spec fn is_step(self, c: char, r: HintStep) -> bool {
        let t = self.typed.push(c);
        match r {
            HintStep::Fire(i) => first_label(self.labels, t, i),
            HintStep::Narrow(u) => u == t && !self.labels.contains(t) && label_begins(
                self.labels,
                t,
            ),
            HintStep::Ignore => !self.labels.contains(t) && !label_begins(self.labels, t),
        }
    }
}

fn find_label(labels: &Vec<String>, t: &str) -> (r: Option<usize>)
    ensures
        r matches Some(i) ==> first_label(texts(labels@), t@, i as int),
        r is None ==> !texts(labels@).contains(t@),
{
    let mut i: usize = 0;
    while i < labels.len()
        invariant
            0 <= i <= labels@.len(),
            forall|j: int| 0 <= j < i ==> #[trigger] texts(labels@)[j] != t@,
        decreases labels@.len() - i,
    {
        assert(texts(labels@)[i as int] == labels@[i as int]@);
        if crate::text::str_eq(labels[i].as_str(), t) {
            return Some(i);
        }
        i = i + 1;
    }
    None
}

fn starts_with(s: &str, p: &str) -> (r: bool)
    ensures
        r == p@.is_prefix_of(s@),
{
    let n: usize = p.unicode_len();
    if s.unicode_len() < n {
        return false;
    }
    let mut i: usize = 0;
    while i < n
        invariant
            n == p@.len(),
            n <= s@.len(),
            0 <= i <= n,
            forall|j: int| 0 <= j < i ==> #[trigger] s@[j] == p@[j],
        decreases n - i,
    {
        if s.get_char(i) != p.get_char(i) {
            assert(s@.subrange(0, n as int)[i as int] != p@[i as int]);
            return false;
        }
        i = i + 1;
    }
    proof {
        assert(p@ =~= s@.subrange(0, n as int));
    }
    true
}

fn any_label_begins(labels: &Vec<String>, t: &str) -> (r: bool)
    ensures
        r == label_begins(texts(labels@), t@),
{
    let mut i: usize = 0;
    while i < labels.len()
        invariant
            0 <= i <= labels@.len(),
            forall|j: int| 0 <= j < i ==> !t@.is_prefix_of(#[trigger] texts(labels@)[j]),
        decreases labels@.len() - i,
    {
        assert(texts(labels@)[i as int] == labels@[i as int]@);
        if starts_with(labels[i].as_str(), t) {
            return true;
        }
        i = i + 1;
    }
    false
}

/// What completing a label asks for: a link is opened with Alt held, where its
/// scheme allows it; everything else is copied.
pub open spec fn fire(token: (TokenKind, Seq<char>), alt: bool) -> AskView {
    if token.0 == TokenKind::Url && alt {
        open_ask(token.1)
    } else {
        AskView::CopyText(token.1)
    }
}

/// What following a link asks for.
pub open spec fn open_ask(url: Seq<char>) -> AskView {
    if openable(url) {
        AskView::OpenUrl(url)
    } else {
        AskView::RefuseUrl(url)
    }
}

/// Decides whether a link is opened.
pub fn open_url(url: &str) -> (r: Ask)
    ensures
        r@ == open_ask(url@),
{
    if url_scheme_allowed(url) {
        Ask::OpenUrl(url.to_owned())
    } else {
        Ask::RefuseUrl(url.to_owned())
    }
}

fn fire_token(t: &HintToken, alt: bool) -> (r: Ask)
    ensures
        r@ == fire((t.kind, t.text@), alt),
{
    if t.kind == TokenKind::Url && alt {
        open_url(t.text.as_str())
    } else {
        Ask::CopyText(t.text.clone())
    }
}

impl AppView {
    /// Hint mode is over.
    pub open spec fn exit_hint(self) -> AppView {
        AppView { hint: None, st: self.st.paint_main(), ..self }
    }

    /// The letters typed in hint mode are `typed`.
    pub open spec fn hint_typed(self, typed: Seq<char>) -> AppView {
        AppView {
            hint: Some(HintView { typed, ..self.hint->0 }),
            st: self.st.paint_main(),
            ..self
        }
    }

    /// A key in hint mode leads to `after` and asks for `r`.
    #[verifier::opaque]
    pub open spec fn hint_key(self, k: KeyView, after: AppView, r: AskView) -> bool {
        let h = self.hint->0;
        if k.logical == LogicalView::Escape {
            after == self.exit_hint() && r == AskView::Nothing
        } else if k.logical == LogicalView::Backspace {
            &&& after == self.hint_typed(
                if h.typed.len() > 0 {
                    h.typed.drop_last()
                } else {
                    h.typed
                },
            )
            &&& r == AskView::Nothing
        } else {
            match base_letter(k.physical, k.logical) {
                None => after == self && r == AskView::Nothing,
                Some(c) => {
                    ||| exists|i: int|
                        #[trigger] h.is_step(c, HintStep::Fire(i)) && after == self.exit_hint() && r
                            == fire(h.tokens[i], k.alt)
                    ||| h.is_step(c, HintStep::Narrow(h.typed.push(c))) && after
                        == self.hint_typed(h.typed.push(c)) && r == AskView::Nothing
                    ||| h.is_step(c, HintStep::Ignore) && after == self && r == AskView::Nothing
                },
            }
        }
    }
}

/// What a letter comes to in hint mode.
enum HintOutcome {
    Fire(Ask),
    Narrow(String),
    Ignore,
}

impl HintOutcome {
    /// The outcome of the letter `c`.
    spec fn is_of(self, h: HintView, c: char, alt: bool) -> bool {
        match self {
            HintOutcome::Fire(ask) => exists|i: int|
                #[trigger] h.is_step(c, HintStep::Fire(i)) && ask@ == fire(h.tokens[i], alt),
            HintOutcome::Narrow(t) => t@ == h.typed.push(c) && h.is_step(c, HintStep::Narrow(t@)),
            HintOutcome::Ignore => h.is_step(c, HintStep::Ignore),
        }
    }
}

impl HintState {
    fn step(&self, c: char, alt: bool) -> (r: HintOutcome)
        requires
            self@.tokens.len() == self@.labels.len(),
        ensures
            r.is_of(self@, c, alt),
    {
        let mut typed: String = self.typed.clone();
        typed.push(c);
        match find_label(&self.labels, typed.as_str()) {
            Some(i) => {
                proof {
                    assert(self@.is_step(c, HintStep::Fire(i as int)));
                    assert(self@.tokens[i as int] == (self.tokens@[i as int].kind, self.tokens@[i as int].text@));
                }
                HintOutcome::Fire(fire_token(&self.tokens[i], alt))
            },
            None => {
                if any_label_begins(&self.labels, typed.as_str()) {
                    HintOutcome::Narrow(typed)
                } else {
                    HintOutcome::Ignore
                }
            },
        }
    }

    fn pop(&mut self)
        ensures
            final(self)@ == (HintView {
                typed: if old(self)@.typed.len() > 0 {
                    old(self)@.typed.drop_last()
                } else {
                    old(self)@.typed
                },
                ..old(self)@
            }),
    {
        let _popped: Option<char> = self.typed.pop();
    }
}

impl App {
    /// Leaves hint mode.
    pub fn exit_hint_mode(&mut self)
        requires
            old(self)@.wf(),
        ensures
            final(self)@ == old(self)@.exit_hint(),
            final(self)@.wf(),
    {
        self.hint = None;
        self.st = self.st.paint_main();
        proof {
            reveal(hint_view);
        }
    }

    /// Whether hint mode may begin: no overlay owns the keyboard, copy mode is
    /// off, and no program has taken the whole screen.
    pub fn may_enter_hint(&self, alt_screen: bool) -> (r: bool)
        ensures
            r == (!self@.st.keys_owned() && self@.st.ui.copy_mode is None && !alt_screen),
    {
        !self.st.overlay_owns_keys() && self.st.ui.copy_mode.is_none() && !alt_screen
    }

    /// Enters hint mode with the tokens on the screen and their labels, unless
    /// there are none.
    pub fn enter_hint_mode(&mut self, tokens: Vec<HintToken>, labels: Vec<String>, alt_screen: bool)
        requires
            old(self)@.wf(),
            tokens@.len() == labels@.len(),
        ensures
            ({
                let v = old(self)@;
                final(self)@ == if v.st.keys_owned() || v.st.ui.copy_mode is Some || alt_screen
                    || tokens@.len() == 0 {
                    v
                } else {
                    AppView {
                        hint: Some(
                            HintView {
                                tokens: token_views(tokens@),
                                labels: texts(labels@),
                                typed: seq![],
                            },
                        ),
                        st: v.st.paint_main(),
                        ..v
                    }
                }
            }),
            final(self)@.wf(),
    {
        if !self.may_enter_hint(alt_screen) || tokens.len() == 0 {
            return;
        }
        self.hint = Some(HintState { tokens, labels, typed: String::new() });
        self.st = self.st.paint_main();
        proof {
            reveal(hint_view);
        }
    }

    /// Handles a key while hint mode owns the keyboard.
    pub fn hint_mode_key(&mut self, k: &KeyPress) -> (r: Ask)
        requires
            old(self)@.wf(),
            old(self)@.hint is Some,
        ensures
            old(self)@.hint_key(k@, final(self)@, r@),
            final(self)@.wf(),
    {
        proof {
            reveal(AppView::hint_key);
        }
        match &k.logical {
            LogicalKey::Escape => {
                self.exit_hint_mode();
                return Ask::Nothing;
            },
            LogicalKey::Backspace => {
                self.hint_backspace();
                return Ask::Nothing;
            },
            _ => {},
        }
        match hint_base_letter(k.physical, &k.logical) {
            Some(c) => self.hint_letter(c, k.alt),
            None => Ask::Nothing,
        }
    }

    fn hint_backspace(&mut self)
        requires
            old(self)@.wf(),
            old(self)@.hint is Some,
        ensures
            ({
                let t = old(self)@.hint->0.typed;
                final(self)@ == old(self)@.hint_typed(
                    if t.len() > 0 {
                        t.drop_last()
                    } else {
                        t
                    },
                )
            }),
            final(self)@.wf(),
    {
        proof {
            reveal(hint_view);
        }
        match self.hint.take() {
            Some(mut h) => {
                h.pop();
                self.hint = Some(h);
            },
            None => {},
        }
        self.st = self.st.paint_main();
    }

    fn hint_letter(&mut self, c: char, alt: bool) -> (r: Ask)
        requires
            old(self)@.wf(),
            old(self)@.hint is Some,
        ensures
            ({
                let v = old(self)@;
                let h = v.hint->0;
                ||| exists|i: int|
                    #[trigger] h.is_step(c, HintStep::Fire(i)) && final(self)@ == v.exit_hint() && r@
                        == fire(h.tokens[i], alt)
                ||| h.is_step(c, HintStep::Narrow(h.typed.push(c))) && final(self)@
                    == v.hint_typed(h.typed.push(c)) && r@ == AskView::Nothing
                ||| h.is_step(c, HintStep::Ignore) && final(self)@ == v && r@ == AskView::Nothing
            }),
            final(self)@.wf(),
    {
        let out: HintOutcome = self.hint_outcome(c, alt);
        match out {
            HintOutcome::Fire(ask) => {
                self.exit_hint_mode();
                ask
            },
            HintOutcome::Narrow(typed) => {
                self.hint_set(typed);
                Ask::Nothing
            },
            HintOutcome::Ignore => Ask::Nothing,
        }
    }

    fn hint_outcome(&self, c: char, alt: bool) -> (r: HintOutcome)
        requires
            self@.wf(),
            self@.hint is Some,
        ensures
            r.is_of(self@.hint->0, c, alt),
    {
        proof {
            reveal(hint_view);
        }
        match &self.hint {
            Some(h) => h.step(c, alt),
            None => HintOutcome::Ignore,
        }
    }

    fn hint_set(&mut self, typed: String)
        requires
            old(self)@.wf(),
            old(self)@.hint is Some,
        ensures
            final(self)@ == old(self)@.hint_typed(typed@),
            final(self)@.wf(),
    {
        proof {
            reveal(hint_view);
        }
        match self.hint.take() {
            Some(mut h) => {
                h.typed = typed;
                self.hint = Some(h);
            },
            None => {},
        }
        self.st = self.st.paint_main();
    }
}

impl HintView {
    /// The labels that still match what was typed.
    pub open spec fn alive(self, i: int) -> bool {
        0 <= i < self.labels.len() && self.typed.is_prefix_of(self.labels[i])
    }
}

impl HintState {
    /// The places of the labels that still match what was typed, in order.
    pub fn shown_labels(&self) -> (r: Vec<usize>)
        ensures
            forall|k: int| 0 <= k < r@.len() ==> self@.alive(#[trigger] r@[k] as int),
            forall|i: int| #[trigger]
                self@.alive(i) ==> exists|k: int| 0 <= k < r@.len() && r@[k] == i,
            forall|a: int, b: int| 0 <= a < b < r@.len() ==> r@[a] < r@[b],
    {
        let mut r: Vec<usize> = Vec::new();
        let mut i: usize = 0;
        while i < self.labels.len()
            invariant
                0 <= i <= self.labels@.len(),
                forall|k: int|
                    0 <= k < r@.len() ==> self@.alive(#[trigger] r@[k] as int) && r@[k] < i,
                forall|j: int| #[trigger]
                    self@.alive(j) && j < i ==> exists|k: int| 0 <= k < r@.len() && r@[k] == j,
                forall|a: int, b: int| 0 <= a < b < r@.len() ==> r@[a] < r@[b],
            decreases self.labels@.len() - i,
        {
            let ghost before = r@;
            assert(self@.labels[i as int] == self.labels@[i as int]@);
            if starts_with(self.labels[i].as_str(), self.typed.as_str()) {
                r.push(i);
                assert(r@[before.len() as int] == i);
                assert forall|j: int| #[trigger] self@.alive(j) && j < i + 1 implies exists|k: int|
                    0 <= k < r@.len() && r@[k] == j by {
                    if j < i {
                        let k = choose|k: int| 0 <= k < before.len() && before[k] == j;
                        assert(r@[k] == j);
                    }
                }
            }
            i = i + 1;
        }
        r
    }
}

/// Before the first letter every label shows.
pub proof fn law_all_labels_show_first(h: HintView, i: int)
    requires
        h.typed.len() == 0,
        0 <= i < h.labels.len(),
    ensures
        h.alive(i),
{
}

/// The selection moves by as many rows as asked, and stops at the ends of the
/// list; nothing else of the palette changes but what shows.
pub proof fn law_selection_moves(p: PaletteView, delta: int)
    ensures
        0 <= p.selected + delta < p.hits.len() ==> p.moved(delta).selected == p.selected + delta,
        p.hits.len() > 0 && p.selected + delta < 0 ==> p.moved(delta).selected == 0,
        p.hits.len() > 0 && p.selected + delta >= p.hits.len() ==> p.moved(delta).selected
            == p.hits.len() - 1,
        p.hits.len() == 0 ==> p.moved(delta) == p,
        p.moved(delta).hits == p.hits,
        p.moved(delta).query == p.query,
        p.moved(delta).rows == p.rows,
        p.hits.len() > 0 && p.scroll <= p.moved(delta).selected < p.scroll + p.rows ==> p.moved(
            delta,
        ).scroll == p.scroll,
{
}

/// The palette opens alone, at the top and with nothing typed; closed, it holds
/// nothing.
pub proof fn law_palette_opens_and_closes(v: AppView)
    ensures
        ({
            let o = v.open_palette();
            &&& o.st.ui.palette_open && o.st.due.paint_main
            &&& !o.st.ui.help_open && !o.st.ui.welcome_open && !o.st.ui.context_menu
            &&& o.st.ui.tab_menu is None
            &&& o.palette.selected == 0 && o.palette.scroll == 0 && o.palette.query.len() == 0
            &&& o.tabs == v.tabs && o.active == v.active
        }),
        v.st.ui.palette_open ==> ({
            let c = v.close_palette();
            &&& !c.st.ui.palette_open && c.st.due.paint_main
            &&& c.palette.hits.len() == 0 && c.palette.query.len() == 0
            &&& c.tabs == v.tabs && c.active == v.active
        }),
        !v.st.ui.palette_open ==> v.close_palette() == v,
{
}

/// What a complete label does: it copies its text, and with Alt it opens an
/// address instead, if its scheme may be opened.
pub proof fn law_labels_copy_or_open(kind: TokenKind, text: Seq<char>)
    ensures
        fire((kind, text), false) == AskView::CopyText(text),
        kind != TokenKind::Url ==> fire((kind, text), true) == AskView::CopyText(text),
        openable(text) ==> fire((TokenKind::Url, text), true) == AskView::OpenUrl(text),
        !openable(text) ==> fire((TokenKind::Url, text), true) == AskView::RefuseUrl(text),
{
}

/// In hint mode a letter that completes a label fires the first token of that
/// label and ends the mode.
pub proof fn law_complete_label_fires(
    v: AppView,
    k: KeyView,
    c: char,
    i: int,
    after: AppView,
    ask: AskView,
)
    requires
        v.hint is Some,
        v.hint_key(k, after, ask),
        k.logical != LogicalView::Escape,
        k.logical != LogicalView::Backspace,
        base_letter(k.physical, k.logical) == Some(c),
        0 <= i < (v.hint->0).labels.len(),
        (v.hint->0).labels[i] == (v.hint->0).typed.push(c),
        forall|j: int| 0 <= j < i ==> #[trigger] (v.hint->0).labels[j] != (v.hint->0).labels[i],
    ensures
        after.hint is None,
        after.st.due.paint_main,
        ask == fire((v.hint->0).tokens[i], k.alt),
{
    reveal(AppView::hint_key);
    let h = v.hint->0;
    let t = h.typed.push(c);
    assert(h.labels.contains(t)) by {
        assert(h.labels[i] == t);
    }
    assert forall|j: int| #[trigger] h.is_step(c, HintStep::Fire(j)) implies j == i by {
        if j < i {
            assert(h.labels[j] != h.labels[i]);
        }
        if i < j {
            assert(h.labels[i] != t);
        }
    }
}

/// One that only begins a label is remembered, and one that begins none is
/// not.
pub proof fn law_label_letters_gather(
    v: AppView,
    k: KeyView,
    c: char,
    after: AppView,
    ask: AskView,
)
    requires
        v.hint is Some,
        v.hint_key(k, after, ask),
        k.logical != LogicalView::Escape,
        k.logical != LogicalView::Backspace,
        base_letter(k.physical, k.logical) == Some(c),
        !(v.hint->0).labels.contains((v.hint->0).typed.push(c)),
    ensures
        label_begins((v.hint->0).labels, (v.hint->0).typed.push(c)) ==> after.hint is Some && (
        after.hint->0).typed == (v.hint->0).typed.push(c) && (after.hint->0).labels == (
        v.hint->0).labels && (after.hint->0).tokens == (v.hint->0).tokens,
        !label_begins((v.hint->0).labels, (v.hint->0).typed.push(c)) ==> after == v,
        ask == AskView::Nothing,
{
    reveal(AppView::hint_key);
    let h = v.hint->0;
    assert forall|j: int| !#[trigger] h.is_step(c, HintStep::Fire(j)) by {
        if h.is_step(c, HintStep::Fire(j)) {
            assert(h.labels[j] == h.typed.push(c));
        }
    }
}

/// Escape ends hint mode, Backspace takes the last letter back, and a key
/// without a letter does nothing.
pub proof fn law_hint_mode_keys(v: AppView, k: KeyView, after: AppView, ask: AskView)
    requires
        v.hint is Some,
        v.hint_key(k, after, ask),
    ensures
        k.logical == LogicalView::Escape ==> after.hint is None && ask == AskView::Nothing,
        k.logical == LogicalView::Backspace ==> after.hint is Some && ask == AskView::Nothing,
        k.logical == LogicalView::Backspace && (v.hint->0).typed.len() > 0 ==> (
        after.hint->0).typed == (v.hint->0).typed.drop_last(),
        k.logical == LogicalView::Backspace ==> (after.hint->0).labels == (v.hint->0).labels,
        k.logical != LogicalView::Escape && k.logical != LogicalView::Backspace && base_letter(
            k.physical,
            k.logical,
        ) is None ==> after == v && ask == AskView::Nothing,
        after.tabs == v.tabs,
{
    reveal(AppView::hint_key);
}

/// A label shows while it begins with what was typed.
pub proof fn law_labels_show_while_they_match(h: HintView, i: int)
    requires
        0 <= i < h.labels.len(),
    ensures
        h.labels[i] == h.typed ==> h.alive(i),
        h.alive(i) ==> h.typed.len() <= h.labels[i].len(),
        h.alive(i) && h.typed.len() > 0 ==> h.labels[i][0] == h.typed[0],
{
}

} // verus!
