//! Keys and composed text in the main window: who owns the keyboard, and what
//! a press then does.

use vstd::prelude::*;

use crate::bytes::{is_printable_keystroke, printable};
use crate::copymode::copy_ask;
use crate::input::{
    Ask, AskView, Decision, DecisionView, KeyAction, KeyPress, KeyView, LogicalKey, LogicalView,
};
use crate::presence::{Env, LAST_INSTANT};
use crate::state::{
    hint_view, App, AppView, Due, Overlays, PaletteView, Stage, Timers,
};
use crate::tabs::{lemma_keep, lemma_narrow, lemma_narrow_trans, lemma_wf_narrow};
use crate::text::{is_control, printable_part, push_printable};

verus! {

/// Who takes a key press.
#[derive(Debug, Clone, Copy, PartialEq, Eq, Structural)]
pub enum Owner {
    /// The press counts for nothing.
    Nobody,
    /// The popup that asks whether to quit.
    Quit,
    /// The popup that asks whether to close this tab.
    Close(usize),
    /// The title that is being edited.
    Rename,
    Palette,
    Hint,
    Copy,
    /// The help text, which only Escape concerns.
    Help,
    Search,
    /// Nothing stands before the shell and the key bindings.
    Shell,
}

impl Stage {
    /// The overlay that owns the keyboard; `hinting` tells that hint mode is
    /// on and `escape` that the key is Escape.
    pub open spec fn owner(self, hinting: bool, escape: bool) -> Owner {
        if self.ui.confirm_quit {
            Owner::Quit
        } else if self.ui.confirm_close is Some {
            Owner::Close(self.ui.confirm_close->0)
        } else if self.ui.renaming is Some {
            Owner::Rename
        } else if self.ui.palette_open {
            Owner::Palette
        } else if hinting {
            Owner::Hint
        } else if self.ui.copy_mode is Some {
            Owner::Copy
        } else if self.ui.help_open && escape {
            Owner::Help
        } else if self.ui.search_open {
            Owner::Search
        } else {
            Owner::Shell
        }
    }

    /// The overlay that owns the keyboard.
    pub fn key_owner(self, hinting: bool, escape: bool) -> (r: Owner)
        ensures
            r == self.owner(hinting, escape),
    {
        if self.ui.confirm_quit {
            return Owner::Quit;
        }
        if let Some(i) = self.ui.confirm_close {
            return Owner::Close(i);
        }
        if self.ui.renaming.is_some() {
            Owner::Rename
        } else if self.ui.palette_open {
            Owner::Palette
        } else if hinting {
            Owner::Hint
        } else if self.ui.copy_mode.is_some() {
            Owner::Copy
        } else if self.ui.help_open && escape {
            Owner::Help
        } else if self.ui.search_open {
            Owner::Search
        } else {
            Owner::Shell
        }
    }

    /// A key while the popup asks whether to quit: Enter quits, Escape stays,
    /// everything else is swallowed.
    pub open spec fn quit_key(self, k: LogicalView) -> Stage {
        match k {
            LogicalView::Enter => Stage { due: Due { exit: true, ..self.due }, ..self },
            LogicalView::Escape => (Stage {
                ui: Overlays { confirm_quit: false, ..self.ui },
                ..self
            }).paint_main(),
            _ => self,
        }
    }

    fn press_quit(self, k: &LogicalKey) -> (r: Stage)
        ensures
            r == self.quit_key(k@),
    {
        match k {
            LogicalKey::Enter => Stage { due: Due { exit: true, ..self.due }, ..self },
            LogicalKey::Escape => (Stage {
                ui: Overlays { confirm_quit: false, ..self.ui },
                ..self
            }).paint_main(),
            _ => self,
        }
    }

    /// The popup that asks whether to close a tab is gone.
    pub open spec fn close_cancelled(self) -> Stage {
        (Stage {
            ui: Overlays {
                confirm_close: None,
                context_menu: false,
                menu_hover: None,
                ..self.ui
            },
            ..self
        }).paint_main()
    }

    /// The rename is given up.
    pub open spec fn rename_cancelled(self) -> Stage {
        (Stage {
            ui: Overlays { renaming: None, context_menu: false, menu_hover: None, ..self.ui },
            ..self
        }).paint_main()
    }

    /// Escape takes the welcome text away, wherever it goes on to.
    #[verifier::opaque]
    pub open spec fn unwelcomed(self, escape: bool) -> Stage {
        if escape {
            Stage { ui: Overlays { welcome_open: false, ..self.ui }, ..self }
        } else {
            self
        }
    }

    fn unwelcome(self, escape: bool) -> (r: Stage)
        ensures
            r == self.unwelcomed(escape),
    {
        proof {
            reveal(Stage::unwelcomed);
        }
        if escape {
            Stage { ui: Overlays { welcome_open: false, ..self.ui }, ..self }
        } else {
            self
        }
    }

    /// The help text closes.
    pub open spec fn help_closed(self) -> Stage {
        (Stage {
            ui: Overlays { help_open: false, context_menu: false, menu_hover: None, ..self.ui },
            ..self
        }).paint_main()
    }

    /// Stale matches of tab `active` are searched for again before a step
    /// goes through them.
    pub open spec fn search_freshened(self, active: Option<u64>, now: u64) -> Stage {
        if self.ui.search_dirty {
            Stage {
                ui: Overlays { search_dirty: false, ..self.ui },
                timers: Timers { search_refresh_at: Some(now), ..self.timers },
                due: Due { search_refresh: active, ..self.due },
                ..self
            }
        } else {
            self
        }
    }

    /// A key while the search bar is open.
    #[verifier::opaque]
    pub open spec fn search_key(self, k: KeyView, active: Option<u64>, now: u64) -> Stage {
        if k.chord == Some(KeyAction::SearchToggle) || k.logical == LogicalView::Escape {
            self.search_closed(active)
        } else if k.logical == LogicalView::Enter || k.logical == LogicalView::F3 {
            self.search_freshened(active, now).paint_main()
        } else {
            self.paint_main()
        }
    }

    fn press_search(self, k: &KeyPress, active: Option<u64>, now: u64) -> (r: Stage)
        ensures
            r == self.search_key(k@, active, now),
    {
        proof {
            reveal(Stage::search_key);
        }
        if is_chord(k, KeyAction::SearchToggle) {
            return self.close_search(active);
        }
        match &k.logical {
            LogicalKey::Escape => self.close_search(active),
            LogicalKey::Enter | LogicalKey::F3 => self.freshen_search(active, now).paint_main(),
            _ => self.paint_main(),
        }
    }

    fn freshen_search(self, active: Option<u64>, now: u64) -> (r: Stage)
        ensures
            r == self.search_freshened(active, now),
    {
        if self.ui.search_dirty {
            Stage {
                ui: Overlays { search_dirty: false, ..self.ui },
                timers: Timers { search_refresh_at: Some(now), ..self.timers },
                due: Due { search_refresh: active, ..self.due },
                ..self
            }
        } else {
            self
        }
    }

    /// A menu is open in the main window.
    pub open spec fn menu_open(self) -> bool {
        self.ui.context_menu || self.ui.tab_menu is Some
    }

    /// Escape closes an open menu in place of reaching the shell.
    #[verifier::opaque]
    pub open spec fn menu_takes(self, bytes: Seq<u8>) -> bool {
        bytes == seq![0x1bu8] && self.menu_open()
    }

    /// Text on its way to the shell takes the welcome away and flashes the
    /// caret.
    #[verifier::opaque]
    pub open spec fn typed(self, bytes: Seq<u8>, now: u64) -> Stage {
        let s = self.unwelcomed(true);
        if (self.prefs.fx.caret_flash_enabled || self.prefs.fx.caret_glow_enabled) && printable(
            bytes,
        ) {
            (Stage { timers: Timers { caret_anim: Some(now), ..s.timers }, ..s }).paint_main()
        } else {
            s
        }
    }

    fn press_typed(self, bytes: &Vec<u8>, now: u64) -> (r: Stage)
        ensures
            r == self.typed(bytes@, now),
    {
        proof {
            reveal(Stage::typed);
        }
        let s: Stage = self.unwelcome(true);
        if (self.prefs.fx.caret_flash_enabled || self.prefs.fx.caret_glow_enabled)
            && is_printable_keystroke(bytes.as_slice()) {
            (Stage { timers: Timers { caret_anim: Some(now), ..s.timers }, ..s }).paint_main()
        } else {
            s
        }
    }

    /// The key sends these bytes.
    pub open spec fn sent(self, bytes: Seq<u8>, now: u64) -> Stage {
        if self.menu_takes(bytes) {
            self.dismiss_menus().paint_main()
        } else {
            self.typed(bytes, now)
        }
    }

    /// What sending these bytes asks for.
    pub open spec fn sent_ask(self, bytes: Seq<u8>) -> AskView {
        if self.menu_takes(bytes) {
            AskView::Nothing
        } else {
            AskView::Send(bytes)
        }
    }
}

fn is_chord(k: &KeyPress, a: KeyAction) -> (r: bool)
    ensures
        r == (k@.chord == Some(a)),
{
    match k.chord {
        Some(c) => c == a,
        None => false,
    }
}

fn is_escape(k: &LogicalKey) -> (r: bool)
    ensures
        r == (k@ == LogicalView::Escape),
{
    match k {
        LogicalKey::Escape => true,
        _ => false,
    }
}

/// What a key in the search bar asks for.
#[verifier::opaque]
pub open spec fn search_ask(k: KeyView) -> AskView {
    if k.chord == Some(KeyAction::SearchToggle) || k.logical == LogicalView::Escape {
        AskView::Nothing
    } else if k.logical == LogicalView::Enter || k.logical == LogicalView::F3 {
        AskView::SearchNav(!k.shift)
    } else if k.logical == LogicalView::Backspace {
        AskView::SearchPop
    } else if k.chord == Some(KeyAction::Paste) {
        AskView::SearchPaste
    } else if k.ctrl || k.sup || k.text is None {
        AskView::Nothing
    } else {
        AskView::SearchType(printable_part(k.text->0))
    }
}

fn ask_search(k: &KeyPress) -> (r: Ask)
    ensures
        r@ == search_ask(k@),
{
    proof {
        reveal(search_ask);
    }
    if is_chord(k, KeyAction::SearchToggle) {
        return Ask::Nothing;
    }
    match &k.logical {
        LogicalKey::Escape => {
            return Ask::Nothing;
        },
        LogicalKey::Enter | LogicalKey::F3 => {
            return Ask::SearchNav(!k.shift);
        },
        LogicalKey::Backspace => {
            return Ask::SearchPop;
        },
        _ => {},
    }
    if is_chord(k, KeyAction::Paste) {
        return Ask::SearchPaste;
    }
    if k.ctrl || k.sup {
        return Ask::Nothing;
    }
    match &k.text {
        Some(t) => {
            let mut q: String = String::new();
            let _some: bool = push_printable(&mut q, t.as_str());
            proof {
                assert(Seq::<char>::empty() + printable_part(t@) =~= printable_part(t@));
            }
            Ask::SearchType(q)
        },
        None => Ask::Nothing,
    }
}

/// Text that the system composed with Alt held: it shows, and more than ASCII
/// is in it.
pub open spec fn composed(text: Seq<char>) -> bool {
    &&& text.len() > 0
    &&& forall|i: int| 0 <= i < text.len() ==> !is_control(#[trigger] text[i])
    &&& exists|i: int| 0 <= i < text.len() && #[trigger] text[i] as u32 >= 0x80
}

/// Whether the system composed this text with Alt held.
pub fn is_composed(text: &str) -> (r: bool)
    ensures
        r == composed(text@),
{
    let mut wide: bool = false;
    let n: usize = text.unicode_len();
    let mut i: usize = 0;
    while i < n
        invariant
            n == text@.len(),
            0 <= i <= n,
            forall|j: int| 0 <= j < i ==> !is_control(#[trigger] text@[j]),
            wide == (exists|j: int| 0 <= j < i && #[trigger] text@[j] as u32 >= 0x80),
        decreases n - i,
    {
        let c: char = text.get_char(i);
        if crate::text::char_is_control(c) {
            return false;
        }
        if c as u32 >= 0x80 {
            wide = true;
            assert(text@[i as int] as u32 >= 0x80);
        }
        i = i + 1;
    }
    wide
}

impl KeyView {
    /// What the key comes to once no overlay takes it: composed text, the text
    /// of a dead key, or the binding.
    pub open spec fn resolved(self) -> DecisionView {
        if self.alt && !self.ctrl && self.text is Some && composed(self.text->0) {
            DecisionView::Send(vstd::utf8::encode_utf8(self.text->0))
        } else if !self.sup && self.dead_key is Some {
            DecisionView::Send(self.dead_key->0)
        } else {
            self.decided
        }
    }
}

/// What the key comes to once no overlay takes it.
pub fn resolve(k: KeyPress) -> (r: Decision)
    ensures
        r@ == k@.resolved(),
{
    if k.alt && !k.ctrl {
        if let Some(t) = &k.text {
            if is_composed(t.as_str()) {
                return Decision::Send(t.as_str().as_bytes_vec());
            }
        }
    }
    if !k.sup {
        if let Some(b) = k.dead_key {
            return Decision::Send(b);
        }
    }
    k.decided
}

impl AppView {
    /// Who takes the key press `k`.
    pub open spec fn owner(self, k: KeyView) -> Owner {
        if k.synthetic || self.tabs.len() == 0 {
            Owner::Nobody
        } else {
            self.st.owner(self.hint is Some, k.logical == LogicalView::Escape)
        }
    }

    /// A key while the popup asks whether to close tab `i`.
    #[verifier::opaque]
    pub open spec fn close_key(self, i: usize, k: LogicalView, env: Env) -> AppView {
        match k {
            LogicalView::Enter => (AppView {
                st: Stage { ui: Overlays { confirm_close: None, ..self.st.ui }, ..self.st },
                ..self
            }).close_tab(i as int, env),
            LogicalView::Escape => AppView { st: self.st.close_cancelled(), ..self },
            _ => self,
        }
    }

    /// The title being edited reads `text`.
    pub open spec fn rename_typed(self, text: Seq<char>) -> AppView {
        AppView { rename_buf: text, st: self.st.paint_main(), ..self }
    }

    /// A key while a title is edited.
    #[verifier::opaque]
    pub open spec fn rename_key(self, k: KeyView) -> AppView {
        match k.logical {
            LogicalView::Enter => self.renamed(),
            LogicalView::Escape => AppView {
                rename_buf: seq![],
                st: self.st.rename_cancelled(),
                ..self
            },
            LogicalView::Backspace => self.rename_typed(chopped(self.rename_buf)),
            _ => match k.text {
                Some(t) => self.rename_typed(self.rename_buf + printable_part(t)),
                None => self,
            },
        }
    }

    /// The palette's query reads `text`.
    pub open spec fn query_typed(self, text: Seq<char>) -> AppView {
        AppView {
            palette: PaletteView { query: text, ..self.palette },
            st: self.st.paint_main(),
            ..self
        }
    }

    /// The palette's selection moves.
    pub open spec fn palette_moved(self, delta: int) -> AppView {
        AppView { palette: self.palette.moved(delta), st: self.st.paint_main(), ..self }
    }

    /// A key while the palette is open.
    #[verifier::opaque]
    pub open spec fn palette_key(self, k: KeyView) -> AppView {
        if k.chord == Some(KeyAction::OpenPalette) {
            self.close_palette()
        } else {
            match k.logical {
                LogicalView::Escape | LogicalView::Enter => self.close_palette(),
                LogicalView::ArrowDown => self.palette_moved(1),
                LogicalView::ArrowUp => self.palette_moved(-1),
                LogicalView::PageDown => self.palette_moved(self.palette.rows),
                LogicalView::PageUp => self.palette_moved(-self.palette.rows),
                LogicalView::Backspace => self.query_typed(chopped(self.palette.query)),
                _ => if k.ctrl || k.sup || k.text is None {
                    AppView { st: self.st.paint_main(), ..self }
                } else {
                    self.query_typed(self.palette.query + printable_part(k.text->0))
                },
            }
        }
    }

    /// What a key in the palette asks for.
    #[verifier::opaque]
    pub open spec fn palette_ask(self, k: KeyView) -> AskView {
        if k.chord == Some(KeyAction::OpenPalette) {
            AskView::Nothing
        } else {
            match k.logical {
                LogicalView::Enter => if self.palette.selected < self.palette.hits.len() {
                    AskView::Run(self.palette.hits[self.palette.selected])
                } else {
                    AskView::Nothing
                },
                LogicalView::Backspace => AskView::Refilter,
                LogicalView::Escape
                | LogicalView::ArrowDown
                | LogicalView::ArrowUp
                | LogicalView::PageDown
                | LogicalView::PageUp => AskView::Nothing,
                _ => if k.ctrl || k.sup || k.text is None || printable_part(k.text->0).len() == 0 {
                    AskView::Nothing
                } else {
                    AskView::Refilter
                },
            }
        }
    }

    /// Copy mode ends and what was selected is dropped.
    #[verifier::opaque]
    pub open spec fn copy_left(self) -> AppView {
        AppView { st: self.st.clear_selection(self.active_id()).exit_copy_mode(), ..self }
    }

    /// A key in copy mode: its own chord and Escape leave it.
    pub open spec fn copy_leaves(k: KeyView) -> bool {
        k.chord == Some(KeyAction::CopyMode) || (!k.ctrl && k.logical == LogicalView::Escape)
    }

    /// A key that no overlay takes leads to this.
    #[verifier::opaque]
    pub open spec fn shell_key(self, k: KeyView, now: u64) -> AppView {
        match k.resolved() {
            DecisionView::Act(a) => self.acted(a, now),
            DecisionView::Send(b) => AppView { st: self.st.sent(b, now), ..self },
            DecisionView::Nothing => self,
        }
    }

    /// What a key that no overlay takes asks for.
    #[verifier::opaque]
    pub open spec fn shell_ask(self, k: KeyView) -> AskView {
        match k.resolved() {
            DecisionView::Act(a) => self.st.action_ask(a, self.active as usize),
            DecisionView::Send(b) => self.st.sent_ask(b),
            DecisionView::Nothing => AskView::Nothing,
        }
    }

    /// The welcome text is gone after Escape.
    pub open spec fn unwelcomed(self, k: KeyView) -> AppView {
        AppView { st: self.st.unwelcomed(k.logical == LogicalView::Escape), ..self }
    }

    /// The key press `k` leads to `after` and asks for `ask`.
    pub open spec fn key_step(self, k: KeyView, env: Env, after: AppView, ask: AskView) -> bool {
        match self.owner(k) {
            Owner::Nobody => after == self && ask == AskView::Nothing,
            Owner::Quit => after == (AppView { st: self.st.quit_key(k.logical), ..self }) && ask
                == AskView::Nothing,
            Owner::Close(i) => after == self.close_key(i, k.logical, env) && ask
                == AskView::Nothing,
            Owner::Rename => after == self.rename_key(k) && ask == AskView::Nothing,
            Owner::Palette => after == self.palette_key(k) && ask == self.palette_ask(k),
            Owner::Hint => if k.chord == Some(KeyAction::HintMode) {
                after == self.exit_hint() && ask == AskView::Nothing
            } else {
                self.hint_key(k, after, ask)
            },
            Owner::Copy => if Self::copy_leaves(k) {
                after == self.copy_left() && ask == AskView::Nothing
            } else {
                after == self && ask == copy_ask(k)
            },
            Owner::Help => after == (AppView {
                st: self.st.unwelcomed(true).help_closed(),
                ..self
            }) && ask == AskView::Nothing,
            Owner::Search => after == (AppView {
                st: self.unwelcomed(k).st.search_key(k, self.active_id(), env.now),
                ..self
            }) && ask == search_ask(k),
            Owner::Shell => after == self.unwelcomed(k).shell_key(k, env.now) && ask
                == self.unwelcomed(k).shell_ask(k),
        }
    }
}

/// `s` without its last character.
pub open spec fn chopped(s: Seq<char>) -> Seq<char> {
    if s.len() > 0 {
        s.drop_last()
    } else {
        s
    }
}

proof fn lemma_quit_wf(v: AppView, k: LogicalView)
    requires
        v.wf(),
    ensures
        (AppView { st: v.st.quit_key(k), ..v }).wf(),
{
    let s = v.st;
    match k {
        LogicalView::Enter => {
            let t = Stage { due: Due { exit: true, ..s.due }, ..s };
            lemma_narrow(s, t);
            lemma_wf_narrow(v, t);
        },
        LogicalView::Escape => {
            let t = (Stage { ui: Overlays { confirm_quit: false, ..s.ui }, ..s }).paint_main();
            lemma_narrow(s, t);
            lemma_wf_narrow(v, t);
        },
        _ => {},
    }
}

proof fn lemma_close_wf(v: AppView)
    requires
        v.wf(),
    ensures
        (AppView { st: v.st.close_cancelled(), ..v }).wf(),
        (AppView {
            st: Stage { ui: Overlays { confirm_close: None, ..v.st.ui }, ..v.st },
            ..v
        }).wf(),
{
    let s = Stage { ui: Overlays { confirm_close: None, ..v.st.ui }, ..v.st };
    lemma_narrow(v.st, v.st.close_cancelled());
    lemma_wf_narrow(v, v.st.close_cancelled());
    lemma_narrow(v.st, s);
    lemma_wf_narrow(v, s);
}

proof fn lemma_paint_wf(v: AppView)
    requires
        v.wf(),
    ensures
        (AppView { st: v.st.paint_main(), ..v }).wf(),
{
    lemma_narrow(v.st, v.st.paint_main());
    lemma_wf_narrow(v, v.st.paint_main());
}

impl App {
    fn press_close(&mut self, i: usize, k: &LogicalKey, env: &Env)
        requires
            old(self)@.wf(),
            env.now <= LAST_INSTANT,
        ensures
            final(self)@ == old(self)@.close_key(i, k@, *env),
            final(self)@.wf(),
    {
        proof {
            reveal(AppView::close_key);
        }
        proof {
            lemma_close_wf(self@);
        }
        match k {
            LogicalKey::Enter => {
                self.st = Stage {
                    ui: Overlays { confirm_close: None, ..self.st.ui },
                    ..self.st
                };
                self.close_tab(i, env);
            },
            LogicalKey::Escape => {
                self.st = (Stage {
                    ui: Overlays {
                        confirm_close: None,
                        context_menu: false,
                        menu_hover: None,
                        ..self.st.ui
                    },
                    ..self.st
                }).paint_main();
            },
            _ => {},
        }
    }

    fn press_rename(&mut self, k: &KeyPress)
        requires
            old(self)@.wf(),
        ensures
            final(self)@ == old(self)@.rename_key(k@),
            final(self)@.wf(),
    {
        proof {
            reveal(AppView::rename_key);
        }
        match &k.logical {
            LogicalKey::Enter => {
                self.commit_rename();
            },
            LogicalKey::Escape => {
                self.cancel_rename();
            },
            LogicalKey::Backspace => {
                proof {
                    lemma_paint_wf(self@);
                }
                let _last: Option<char> = self.rename_buf.pop();
                self.st = self.st.paint_main();
            },
            _ => {
                if let Some(t) = &k.text {
                    self.rename_append(t.as_str());
                }
            },
        }
    }

    fn cancel_rename(&mut self)
        requires
            old(self)@.wf(),
        ensures
            final(self)@ == (AppView {
                rename_buf: seq![],
                st: old(self)@.st.rename_cancelled(),
                ..old(self)@
            }),
            final(self)@.wf(),
    {
        proof {
            lemma_narrow(self@.st, self@.st.rename_cancelled());
            lemma_wf_narrow(self@, self@.st.rename_cancelled());
        }
        self.rename_buf.clear();
        self.st = (Stage {
            ui: Overlays { renaming: None, context_menu: false, menu_hover: None, ..self.st.ui },
            ..self.st
        }).paint_main();
    }

    fn rename_append(&mut self, t: &str)
        requires
            old(self)@.wf(),
        ensures
            final(self)@ == old(self)@.rename_typed(old(self)@.rename_buf + printable_part(t@)),
            final(self)@.wf(),
    {
        proof {
            lemma_paint_wf(self@);
        }
        let _some: bool = push_printable(&mut self.rename_buf, t);
        self.st = self.st.paint_main();
    }

    fn palette_append(&mut self, t: &str) -> (r: Ask)
        requires
            old(self)@.wf(),
        ensures
            final(self)@ == old(self)@.query_typed(old(self)@.palette.query + printable_part(t@)),
            r@ == if printable_part(t@).len() == 0 {
                AskView::Nothing
            } else {
                AskView::Refilter
            },
            final(self)@.wf(),
    {
        let changed: bool = push_printable(&mut self.palette.query, t);
        self.st = self.st.paint_main();
        if changed {
            Ask::Refilter
        } else {
            Ask::Nothing
        }
    }

    fn press_palette(&mut self, k: &KeyPress) -> (r: Ask)
        requires
            old(self)@.wf(),
            old(self)@.st.ui.palette_open,
        ensures
            final(self)@ == old(self)@.palette_key(k@),
            r@ == old(self)@.palette_ask(k@),
            final(self)@.wf(),
    {
        proof {
            reveal(AppView::palette_key);
            reveal(AppView::palette_ask);
        }
        if is_chord(k, KeyAction::OpenPalette) {
            self.close_palette();
            return Ask::Nothing;
        }
        match &k.logical {
            LogicalKey::Escape => {
                self.close_palette();
                Ask::Nothing
            },
            LogicalKey::Enter => self.palette_enter(),
            LogicalKey::ArrowDown => self.palette_step(1),
            LogicalKey::ArrowUp => self.palette_step(-1),
            LogicalKey::PageDown => {
                let n: i64 = self.palette.rows as i64;
                self.palette_step(n)
            },
            LogicalKey::PageUp => {
                let n: i64 = self.palette.rows as i64;
                self.palette_step(-n)
            },
            LogicalKey::Backspace => self.palette_chop(),
            _ => self.palette_type(k),
        }
    }

    fn palette_chop(&mut self) -> (r: Ask)
        requires
            old(self)@.wf(),
        ensures
            final(self)@ == old(self)@.query_typed(chopped(old(self)@.palette.query)),
            r@ == AskView::Refilter,
            final(self)@.wf(),
    {
        let _last: Option<char> = self.palette.query.pop();
        self.st = self.st.paint_main();
        Ask::Refilter
    }

    fn palette_type(&mut self, k: &KeyPress) -> (r: Ask)
        requires
            old(self)@.wf(),
        ensures
            final(self)@ == if k@.ctrl || k@.sup || k@.text is None {
                AppView { st: old(self)@.st.paint_main(), ..old(self)@ }
            } else {
                old(self)@.query_typed(old(self)@.palette.query + printable_part(k@.text->0))
            },
            r@ == if k@.ctrl || k@.sup || k@.text is None || printable_part(k@.text->0).len() == 0 {
                AskView::Nothing
            } else {
                AskView::Refilter
            },
            final(self)@.wf(),
    {
        if !(k.ctrl || k.sup) {
            if let Some(t) = &k.text {
                return self.palette_append(t.as_str());
            }
        }
        proof {
            lemma_paint_wf(self@);
        }
        self.st = self.st.paint_main();
        Ask::Nothing
    }

    fn palette_step(&mut self, delta: i64) -> (r: Ask)
        requires
            old(self)@.wf(),
        ensures
            final(self)@ == old(self)@.palette_moved(delta as int),
            r@ == AskView::Nothing,
            final(self)@.wf(),
    {
        self.palette_move(delta);
        proof {
            lemma_paint_wf(self@);
        }
        self.st = self.st.paint_main();
        Ask::Nothing
    }

    fn palette_enter(&mut self) -> (r: Ask)
        requires
            old(self)@.wf(),
        ensures
            final(self)@ == old(self)@.close_palette(),
            r@ == if old(self)@.palette.selected < old(self)@.palette.hits.len() {
                AskView::Run(old(self)@.palette.hits[old(self)@.palette.selected])
            } else {
                AskView::Nothing
            },
            final(self)@.wf(),
    {
        let i: usize = self.palette.selected;
        let ask: Ask = if i < self.palette.hits.len() {
            Ask::Run(self.palette.hits[i])
        } else {
            Ask::Nothing
        };
        self.close_palette();
        ask
    }

    fn press_copy(&mut self, k: &KeyPress) -> (r: Ask)
        requires
            old(self)@.wf(),
        ensures
            AppView::copy_leaves(k@) ==> final(self)@ == old(self)@.copy_left() && r@
                == AskView::Nothing,
            !AppView::copy_leaves(k@) ==> final(self)@ == old(self)@ && r@ == copy_ask(k@),
            final(self)@.wf(),
    {
        proof {
            reveal(AppView::copy_left);
        }
        let id: Option<u64> = self.active_tab_id();
        proof {
            let t = self@.st.clear_selection(id).exit_copy_mode();
            lemma_narrow(self@.st, t);
            lemma_wf_narrow(self@, t);
        }
        if is_chord(k, KeyAction::CopyMode) {
            self.st = self.st.clear_selection(id).exit_copy_mode();
            return Ask::Nothing;
        }
        let (st, ask): (Stage, Ask) = self.st.copy_mode_key(k, id);
        self.st = st;
        ask
    }

    fn press_shell(&mut self, k: KeyPress, now: u64) -> (r: Ask)
        requires
            old(self)@.wf(),
            old(self)@.tabs.len() > 0,
            now <= LAST_INSTANT,
        ensures
            final(self)@ == old(self)@.shell_key(k@, now),
            r@ == old(self)@.shell_ask(k@),
            final(self)@.wf(),
    {
        proof {
            reveal(AppView::shell_key);
            reveal(AppView::shell_ask);
        }
        match resolve(k) {
            Decision::Act(a) => self.act(a, now),
            Decision::Send(b) => self.press_send(b, now),
            Decision::Nothing => Ask::Nothing,
        }
    }

    fn press_send(&mut self, b: Vec<u8>, now: u64) -> (r: Ask)
        requires
            old(self)@.wf(),
        ensures
            final(self)@ == (AppView { st: old(self)@.st.sent(b@, now), ..old(self)@ }),
            r@ == old(self)@.st.sent_ask(b@),
            final(self)@.wf(),
    {
        proof {
            lemma_sent_wf(self@, b@, now);
        }
        let lone: bool = b.len() == 1 && b[0] == 0x1b;
        assert(lone == (b@ == seq![0x1bu8])) by {
            if lone {
                assert(b@ =~= seq![0x1bu8]);
            }
        }
        proof {
            reveal(Stage::menu_takes);
        }
        if lone && (self.st.ui.context_menu || self.st.ui.tab_menu.is_some()) {
            self.st = self.st.dismiss_menus().paint_main();
            return Ask::Nothing;
        }
        self.st = self.st.press_typed(&b, now);
        Ask::Send(b)
    }
}

proof fn lemma_unwelcomed_narrow(s: Stage, escape: bool)
    ensures
        s.narrows_to(s.unwelcomed(escape)),
{
    reveal(Stage::unwelcomed);
    lemma_narrow(s, s.unwelcomed(escape));
}

proof fn lemma_caret_narrow(s: Stage, now: u64)
    ensures
        s.narrows_to(
            (Stage { timers: Timers { caret_anim: Some(now), ..s.timers }, ..s }).paint_main(),
        ),
{
    lemma_keep(
        s,
        (Stage { timers: Timers { caret_anim: Some(now), ..s.timers }, ..s }).paint_main(),
    );
}

proof fn lemma_paint_narrow(s: Stage)
    ensures
        s.narrows_to(s.paint_main()),
{
    lemma_keep(s, s.paint_main());
}

proof fn lemma_typed_narrow(s: Stage, b: Seq<u8>, now: u64)
    ensures
        s.narrows_to(s.typed(b, now)),
        s.narrows_to(s.typed(b, now).paint_main()),
{
    let t = s.typed(b, now);
    assert(s.narrows_to(t)) by {
        reveal(Stage::typed);
        let u = s.unwelcomed(true);
        lemma_unwelcomed_narrow(s, true);
        lemma_caret_narrow(u, now);
        lemma_narrow_trans(
            s,
            u,
            (Stage { timers: Timers { caret_anim: Some(now), ..u.timers }, ..u }).paint_main(),
        );
    }
    lemma_paint_narrow(t);
    lemma_narrow_trans(s, t, t.paint_main());
}

proof fn lemma_dismiss_narrow(s: Stage)
    ensures
        s.narrows_to(s.dismiss_menus().paint_main()),
{
    lemma_narrow(s, s.dismiss_menus().paint_main());
}

proof fn lemma_sent_wf(v: AppView, b: Seq<u8>, now: u64)
    requires
        v.wf(),
    ensures
        (AppView { st: v.st.sent(b, now), ..v }).wf(),
{
    lemma_dismiss_narrow(v.st);
    lemma_typed_narrow(v.st, b, now);
    lemma_wf_narrow(v, v.st.sent(b, now));
}

impl App {
    /// Handles a key press in the main window. Stale matches that it asks to
    /// refresh are searched for before the step that it asks for.
    pub fn key_pressed(&mut self, k: KeyPress, env: &Env) -> (r: Ask)
        requires
            old(self)@.wf(),
            env.now <= LAST_INSTANT,
        ensures
            old(self)@.key_step(k@, *env, final(self)@, r@),
            final(self)@.wf(),
    {
        if k.synthetic || self.tabs.len() == 0 {
            return Ask::Nothing;
        }
        proof {
            reveal(hint_view);
        }
        let escape: bool = is_escape(&k.logical);
        match self.st.key_owner(self.hint.is_some(), escape) {
            Owner::Nobody => Ask::Nothing,
            Owner::Quit => self.press_quit(&k.logical),
            Owner::Close(i) => {
                self.press_close(i, &k.logical, env);
                Ask::Nothing
            },
            Owner::Rename => {
                self.press_rename(&k);
                Ask::Nothing
            },
            Owner::Palette => self.press_palette(&k),
            Owner::Hint => if is_chord(&k, KeyAction::HintMode) {
                self.exit_hint_mode();
                Ask::Nothing
            } else {
                self.hint_mode_key(&k)
            },
            Owner::Copy => self.press_copy(&k),
            Owner::Help => self.press_help(),
            Owner::Search => self.press_search(&k, escape, env.now),
            Owner::Shell => {
                self.unwelcome(escape);
                self.press_shell(k, env.now)
            },
        }
    }

    fn press_quit(&mut self, k: &LogicalKey) -> (r: Ask)
        requires
            old(self)@.wf(),
        ensures
            final(self)@ == (AppView { st: old(self)@.st.quit_key(k@), ..old(self)@ }),
            r@ == AskView::Nothing,
            final(self)@.wf(),
    {
        proof {
            lemma_quit_wf(self@, k@);
        }
        self.st = self.st.press_quit(k);
        Ask::Nothing
    }

    fn press_help(&mut self) -> (r: Ask)
        requires
            old(self)@.wf(),
        ensures
            final(self)@ == (AppView {
                st: old(self)@.st.unwelcomed(true).help_closed(),
                ..old(self)@
            }),
            r@ == AskView::Nothing,
            final(self)@.wf(),
    {
        proof {
            let u = self@.st.unwelcomed(true);
            lemma_unwelcomed_narrow(self@.st, true);
            lemma_narrow(u, u.help_closed());
            lemma_narrow_trans(self@.st, u, u.help_closed());
            lemma_wf_narrow(self@, u.help_closed());
        }
        let s: Stage = self.st.unwelcome(true);
        self.st = (Stage {
            ui: Overlays { help_open: false, context_menu: false, menu_hover: None, ..s.ui },
            ..s
        }).paint_main();
        Ask::Nothing
    }

    fn unwelcome(&mut self, escape: bool)
        requires
            old(self)@.wf(),
        ensures
            final(self)@ == (AppView { st: old(self)@.st.unwelcomed(escape), ..old(self)@ }),
            final(self)@.wf(),
    {
        proof {
            lemma_unwelcomed_narrow(self@.st, escape);
            lemma_wf_narrow(self@, self@.st.unwelcomed(escape));
        }
        self.st = self.st.unwelcome(escape);
    }

    fn press_search(&mut self, k: &KeyPress, escape: bool, now: u64) -> (r: Ask)
        requires
            old(self)@.wf(),
            escape == (k@.logical == LogicalView::Escape),
        ensures
            final(self)@ == (AppView {
                st: old(self)@.st.unwelcomed(escape).search_key(
                    k@,
                    old(self)@.active_id(),
                    now,
                ),
                ..old(self)@
            }),
            r@ == search_ask(k@),
            final(self)@.wf(),
    {
        let id: Option<u64> = self.active_tab_id();
        proof {
            lemma_search_narrow(self@.st, escape, k@, id, now);
            lemma_wf_narrow(self@, self@.st.unwelcomed(escape).search_key(k@, id, now));
        }
        self.st = self.st.unwelcome(escape).press_search(k, id, now);
        ask_search(k)
    }
}

proof fn lemma_search_key_narrow(s: Stage, k: KeyView, id: Option<u64>, now: u64)
    ensures
        s.narrows_to(s.search_key(k, id, now)),
{
    reveal(Stage::search_key);
    let c = s.search_closed(id);
    let f = s.search_freshened(id, now).paint_main();
    let p = s.paint_main();
    assert(s.narrows_to(c)) by {
        lemma_narrow(s, c);
    }
    assert(s.narrows_to(f)) by {
        lemma_narrow(s, f);
    }
    assert(s.narrows_to(p)) by {
        lemma_narrow(s, p);
    }
}

proof fn lemma_search_narrow(s: Stage, escape: bool, k: KeyView, id: Option<u64>, now: u64)
    ensures
        s.narrows_to(s.unwelcomed(escape).search_key(k, id, now)),
{
    let u = s.unwelcomed(escape);
    lemma_unwelcomed_narrow(s, escape);
    lemma_search_key_narrow(u, k, id, now);
    lemma_narrow_trans(s, u, u.search_key(k, id, now));
}

impl AppView {
    /// Text that an input method composed leads to this. It goes where typed
    /// text goes: the popups, hint mode and copy mode drop it, an editor takes
    /// it, and else it is for the shell.
    #[verifier::opaque]
    pub open spec fn ime_text(self, text: Seq<char>, now: u64) -> AppView {
        if self.ime_dropped(text) {
            self
        } else if self.st.ui.renaming is Some {
            self.rename_typed(self.rename_buf + printable_part(text))
        } else if self.st.ui.palette_open {
            self.query_typed(self.palette.query + printable_part(text))
        } else if self.st.ui.search_open {
            AppView { st: self.st.paint_main(), ..self }
        } else {
            AppView {
                st: self.st.typed(vstd::utf8::encode_utf8(text), now).paint_main(),
                ..self
            }
        }
    }

    /// What composed text asks for.
    #[verifier::opaque]
    pub open spec fn ime_ask(self, text: Seq<char>) -> AskView {
        if self.ime_dropped(text) || self.st.ui.renaming is Some {
            AskView::Nothing
        } else if self.st.ui.palette_open {
            if printable_part(text).len() == 0 {
                AskView::Nothing
            } else {
                AskView::Refilter
            }
        } else if self.st.ui.search_open {
            AskView::SearchType(printable_part(text))
        } else {
            AskView::Send(vstd::utf8::encode_utf8(text))
        }
    }

    /// Composed text is for nobody.
    pub open spec fn ime_dropped(self, text: Seq<char>) -> bool {
        ||| text.len() == 0
        ||| self.tabs.len() == 0
        ||| self.st.ui.confirm_quit
        ||| self.st.ui.confirm_close is Some
        ||| self.hint is Some
        ||| self.st.ui.copy_mode is Some
    }
}

impl App {
    /// Handles text that an input method composed.
    pub fn ime_commit(&mut self, text: &str, now: u64) -> (r: Ask)
        requires
            old(self)@.wf(),
        ensures
            final(self)@ == old(self)@.ime_text(text@, now),
            r@ == old(self)@.ime_ask(text@),
            final(self)@.wf(),
    {
        proof {
            reveal(AppView::ime_text);
            reveal(AppView::ime_ask);
            reveal(hint_view);
        }
        if text.is_empty() || self.tabs.len() == 0 || self.st.ui.confirm_quit
            || self.st.ui.confirm_close.is_some() || self.hint.is_some()
            || self.st.ui.copy_mode.is_some() {
            return Ask::Nothing;
        }
        if self.st.ui.renaming.is_some() {
            self.rename_append(text);
            return Ask::Nothing;
        }
        if self.st.ui.palette_open {
            return self.palette_append(text);
        }
        if self.st.ui.search_open {
            return self.search_append(text);
        }
        self.send_text(text, now)
    }

    fn search_append(&mut self, text: &str) -> (r: Ask)
        requires
            old(self)@.wf(),
        ensures
            final(self)@ == (AppView { st: old(self)@.st.paint_main(), ..old(self)@ }),
            r@ == AskView::SearchType(printable_part(text@)),
            final(self)@.wf(),
    {
        proof {
            lemma_paint_wf(self@);
            assert(Seq::<char>::empty() + printable_part(text@) =~= printable_part(text@));
        }
        let mut q: String = String::new();
        let _some: bool = push_printable(&mut q, text);
        self.st = self.st.paint_main();
        Ask::SearchType(q)
    }

    fn send_text(&mut self, text: &str, now: u64) -> (r: Ask)
        requires
            old(self)@.wf(),
        ensures
            final(self)@ == (AppView {
                st: old(self)@.st.typed(vstd::utf8::encode_utf8(text@), now).paint_main(),
                ..old(self)@
            }),
            r@ == AskView::Send(vstd::utf8::encode_utf8(text@)),
            final(self)@.wf(),
    {
        let b: Vec<u8> = text.as_bytes_vec();
        proof {
            lemma_typed_narrow(self@.st, b@, now);
            lemma_wf_narrow(self@, self@.st.typed(b@, now).paint_main());
        }
        self.st = self.st.press_typed(&b, now).paint_main();
        Ask::Send(b)
    }
}

/// While a popup, an editor, the palette, the search bar, hint mode or copy
/// mode owns the keyboard, no key reaches the shell.
pub proof fn law_overlay_keeps_keys_from_shell(
    v: AppView,
    k: KeyView,
    env: Env,
    after: AppView,
    ask: AskView,
)
    requires
        v.key_step(k, env, after, ask),
        v.st.ui.confirm_quit || v.st.ui.confirm_close is Some || v.st.ui.renaming is Some
            || v.st.ui.palette_open || v.hint is Some || v.st.ui.copy_mode is Some
            || v.st.ui.search_open,
    ensures
        ask !is Send,
{
    reveal(AppView::palette_ask);
    reveal(AppView::hint_key);
    reveal(search_ask);
    reveal(copy_ask);
}

/// The same holds of composed text.
pub proof fn law_overlay_keeps_text_from_shell(v: AppView, text: Seq<char>)
    requires
        v.st.ui.confirm_quit || v.st.ui.confirm_close is Some || v.st.ui.renaming is Some
            || v.st.ui.palette_open || v.hint is Some || v.st.ui.copy_mode is Some
            || v.st.ui.search_open,
    ensures
        v.ime_ask(text) !is Send,
{
    reveal(AppView::ime_ask);
}

/// An open popup takes Enter and Escape and swallows every other key.
pub proof fn law_popup_swallows(v: AppView, k: KeyView, env: Env, after: AppView, ask: AskView)
    requires
        v.key_step(k, env, after, ask),
        v.st.ui.confirm_quit || v.st.ui.confirm_close is Some,
        k.logical != LogicalView::Enter,
        k.logical != LogicalView::Escape,
    ensures
        after == v,
        ask == AskView::Nothing,
{
    reveal(AppView::close_key);
}

/// A key that was merely held when the window gained the focus does nothing.
pub proof fn law_held_keys_do_nothing(
    v: AppView,
    k: KeyView,
    env: Env,
    after: AppView,
    ask: AskView,
)
    requires
        v.key_step(k, env, after, ask),
        k.synthetic,
    ensures
        after == v,
        ask == AskView::Nothing,
{
}

/// Escape never reaches the shell while a menu is open: it closes the menu.
pub proof fn law_escape_closes_menu(s: Stage, now: u64)
    requires
        s.menu_open(),
    ensures
        s.sent_ask(seq![0x1bu8]) == AskView::Nothing,
        !s.sent(seq![0x1bu8], now).menu_open(),
{
    reveal(Stage::menu_takes);
}

/// Whose a key is: the popup before quitting comes first, then the one before
/// closing a tab, a rename, the palette, labels, copy mode, the help text for
/// Escape alone, the search bar, and else the shell.
pub proof fn law_key_owner(v: AppView, k: KeyView)
    requires
        !k.synthetic,
        v.tabs.len() > 0,
    ensures
        ({
            let u = v.st.ui;
            let o = v.owner(k);
            let escape = k.logical == LogicalView::Escape;
            let free = !u.confirm_quit && u.confirm_close is None && u.renaming is None
                && !u.palette_open;
            &&& u.confirm_quit ==> o == Owner::Quit
            &&& !u.confirm_quit ==> (u.confirm_close matches Some(i) ==> o == Owner::Close(i))
            &&& !u.confirm_quit && u.confirm_close is None && u.renaming is Some ==> o
                == Owner::Rename
            &&& !u.confirm_quit && u.confirm_close is None && u.renaming is None && u.palette_open
                ==> o == Owner::Palette
            &&& free && v.hint is Some ==> o == Owner::Hint
            &&& free && v.hint is None && u.copy_mode is Some ==> o == Owner::Copy
            &&& free && v.hint is None && u.copy_mode is None && u.help_open && escape ==> o
                == Owner::Help
            &&& free && v.hint is None && u.copy_mode is None && !(u.help_open && escape)
                && u.search_open ==> o == Owner::Search
            &&& free && v.hint is None && u.copy_mode is None && !(u.help_open && escape)
                && !u.search_open ==> o == Owner::Shell
        }),
{
}

/// In the popup before quitting Enter ends the application and Escape closes
/// the popup.
pub proof fn law_quit_popup_keys(v: AppView, k: KeyView, env: Env, after: AppView, ask: AskView)
    requires
        v.key_step(k, env, after, ask),
        !k.synthetic,
        v.tabs.len() > 0,
        v.st.ui.confirm_quit,
    ensures
        k.logical == LogicalView::Enter ==> after.st.due.exit,
        k.logical != LogicalView::Enter ==> after.st.due.exit == v.st.due.exit,
        k.logical == LogicalView::Escape ==> !after.st.ui.confirm_quit && after.st.due.paint_main,
        after.tabs == v.tabs,
        ask == AskView::Nothing,
{
}

/// In the popup before closing a tab Enter closes that tab and Escape keeps
/// it; either closes the popup.
pub proof fn law_close_popup_keys(
    v: AppView,
    i: usize,
    k: KeyView,
    env: Env,
    after: AppView,
    ask: AskView,
)
    requires
        v.key_step(k, env, after, ask),
        !k.synthetic,
        v.tabs.len() >= 2,
        !v.st.ui.confirm_quit,
        v.st.ui.confirm_close == Some(i),
        i < v.tabs.len(),
    ensures
        k.logical == LogicalView::Enter ==> after.tabs == v.tabs.remove(i as int)
            && after.st.ui.confirm_close is None,
        k.logical == LogicalView::Escape ==> after.st.ui.confirm_close is None
            && after.st.due.paint_main,
        k.logical != LogicalView::Enter ==> after.tabs == v.tabs && after.active == v.active,
        ask == AskView::Nothing,
{
    reveal(AppView::close_key);
}

/// While a tab is renamed, text and Backspace edit its new name, Enter gives it
/// the name without the white space around it, and Escape leaves it as it was.
pub proof fn law_rename_keys(
    v: AppView,
    i: usize,
    k: KeyView,
    env: Env,
    after: AppView,
    ask: AskView,
)
    requires
        v.key_step(k, env, after, ask),
        v.owner(k) == Owner::Rename,
        v.st.ui.renaming == Some(i),
        i < v.tabs.len(),
    ensures
        ({
            let name = crate::text::trim(v.rename_buf);
            let plain = k.logical != LogicalView::Enter && k.logical != LogicalView::Escape
                && k.logical != LogicalView::Backspace;
            &&& k.logical == LogicalView::Enter ==> after.st.ui.renaming is None
            &&& k.logical == LogicalView::Enter && name.len() > 0 ==> after.tabs[i as int].title
                == name && after.tabs[i as int].manually_renamed
            &&& k.logical == LogicalView::Enter && name.len() == 0 ==> after.tabs == v.tabs
            &&& k.logical == LogicalView::Escape ==> after.tabs == v.tabs && after.st.ui.renaming
                is None && after.rename_buf.len() == 0
            &&& k.logical == LogicalView::Backspace && v.rename_buf.len() > 0 ==> after.rename_buf
                == v.rename_buf.drop_last()
            &&& plain ==> (k.text matches Some(t) ==> after.rename_buf == v.rename_buf
                + printable_part(t))
            &&& plain || k.logical == LogicalView::Backspace ==> after.tabs == v.tabs
                && after.st.ui.renaming == Some(i)
            &&& ask == AskView::Nothing
        }),
{
    reveal(AppView::rename_key);
}

/// The palette's keys: the arrows and pages move the selection, Enter runs what
/// is selected, Escape and the palette's own chord close it.
pub proof fn law_palette_keys(v: AppView, k: KeyView, env: Env, after: AppView, ask: AskView)
    requires
        v.key_step(k, env, after, ask),
        v.owner(k) == Owner::Palette,
        v.wf(),
    ensures
        ({
            let p = v.palette;
            let q = after.palette;
            let own = k.chord == Some(KeyAction::OpenPalette);
            &&& own || k.logical == LogicalView::Escape ==> !after.st.ui.palette_open && ask
                == AskView::Nothing
            &&& k.logical == LogicalView::Enter ==> !after.st.ui.palette_open
            &&& !own && k.logical == LogicalView::Enter && p.hits.len() > 0 ==> ask == AskView::Run(
                p.hits[p.selected],
            )
            &&& !own && k.logical == LogicalView::ArrowDown && p.hits.len() > 0
                && p.selected + 1 < p.hits.len()
                ==> q.selected == p.selected + 1
            &&& !own && k.logical == LogicalView::ArrowUp && p.selected > 0 && p.hits.len() > 0 ==> q.selected
                == p.selected - 1
            &&& !own && k.logical == LogicalView::PageDown && p.hits.len() > 0
                && p.selected + p.rows < p.hits.len()
                ==> q.selected == p.selected + p.rows
            &&& !own && k.logical == LogicalView::PageUp && p.selected >= p.rows && p.hits.len() > 0
                ==> q.selected == p.selected - p.rows
            &&& !own && (k.logical == LogicalView::ArrowDown || k.logical == LogicalView::ArrowUp
                || k.logical == LogicalView::PageDown || k.logical == LogicalView::PageUp)
                ==> after.st.ui.palette_open && after.st.due.paint_main && q.hits == p.hits
                && q.query == p.query && ask == AskView::Nothing
            &&& after.tabs == v.tabs && after.active == v.active
        }),
{
    reveal(AppView::palette_key);
    reveal(AppView::palette_ask);
}

/// What is typed into the palette changes its query and has it filtered anew.
pub proof fn law_palette_typing(v: AppView, k: KeyView, env: Env, after: AppView, ask: AskView)
    requires
        v.key_step(k, env, after, ask),
        v.owner(k) == Owner::Palette,
        k.chord != Some(KeyAction::OpenPalette),
    ensures
        k.logical == LogicalView::Backspace ==> ask == AskView::Refilter,
        k.logical == LogicalView::Backspace && v.palette.query.len() > 0 ==> after.palette.query
            == v.palette.query.drop_last(),
        (k.logical is Character || k.logical is Other) && !k.ctrl && !k.sup ==> (k.text matches Some(
            t,
        ) ==> after.palette.query == v.palette.query + printable_part(t) && (
        printable_part(t).len() > 0 ==> ask == AskView::Refilter)),
        (k.logical is Character || k.logical is Other) && (k.ctrl || k.sup) ==> after.palette
            == v.palette && ask == AskView::Nothing,
{
    reveal(AppView::palette_key);
    reveal(AppView::palette_ask);
}

/// Labels and copy mode end by their own chords, copy mode by Escape too, which
/// drops what was selected.
pub proof fn law_modes_end_by_their_chords(
    v: AppView,
    k: KeyView,
    env: Env,
    after: AppView,
    ask: AskView,
)
    requires
        v.key_step(k, env, after, ask),
    ensures
        v.owner(k) == Owner::Hint && k.chord == Some(KeyAction::HintMode) ==> after.hint is None
            && ask == AskView::Nothing && after.st.due.paint_main,
        v.owner(k) == Owner::Copy && (k.chord == Some(KeyAction::CopyMode) || (k.logical
            == LogicalView::Escape && !k.ctrl)) ==> after.st.ui.copy_mode is None && ask
            == AskView::Nothing && after.st.due.paint_main && (0 <= v.active < v.tabs.len()
            ==> after.st.due.selection_clear == Some(v.tabs[v.active].id)),
        v.owner(k) == Owner::Copy && k.chord != Some(KeyAction::CopyMode) && (k.logical
            != LogicalView::Escape || k.ctrl) ==> after == v && ask == copy_ask(k),
        v.owner(k) == Owner::Help ==> !after.st.ui.help_open && ask == AskView::Nothing
            && after.st.due.paint_main,
{
    reveal(AppView::copy_left);
    reveal(Stage::unwelcomed);
}

/// The search bar's keys: Enter and F3 go to the next older match, with Shift
/// to the next newer one, Backspace and text edit what is looked for, Escape
/// and the bar's chord close it.
pub proof fn law_search_keys(v: AppView, k: KeyView, env: Env, after: AppView, ask: AskView)
    requires
        v.key_step(k, env, after, ask),
        v.owner(k) == Owner::Search,
    ensures
        ({
            let closes = k.chord == Some(KeyAction::SearchToggle) || k.logical
                == LogicalView::Escape;
            let steps = k.logical == LogicalView::Enter || k.logical == LogicalView::F3;
            &&& closes ==> !after.st.ui.search_open && ask == AskView::Nothing
            &&& !closes ==> after.st.ui.search_open && after.st.due.paint_main
            &&& !closes && steps ==> ask == AskView::SearchNav(!k.shift)
            &&& !closes && k.logical == LogicalView::Backspace ==> ask == AskView::SearchPop
            &&& !closes && !steps && k.logical != LogicalView::Backspace && k.chord == Some(
                KeyAction::Paste,
            ) ==> ask == AskView::SearchPaste
            &&& !closes && (k.logical is Character || k.logical is Other) && k.chord is None
                && !k.ctrl && !k.sup ==> (k.text matches Some(t) ==> ask == AskView::SearchType(
                printable_part(t),
            ))
            &&& after.tabs == v.tabs && after.active == v.active
        }),
{
    reveal(search_ask);
    reveal(Stage::search_key);
    reveal(Stage::unwelcomed);
}

/// A key for the shell goes to it, unless it is Escape and a menu is open, and
/// ends the welcome text; what can be seen flashes the caret where that is
/// wanted.
pub proof fn law_shell_keys(
    v: AppView,
    bytes: Seq<u8>,
    k: KeyView,
    env: Env,
    after: AppView,
    ask: AskView,
)
    requires
        v.key_step(k, env, after, ask),
        v.owner(k) == Owner::Shell,
        k.resolved() == DecisionView::Send(bytes),
    ensures
        ({
            let menu = v.st.ui.context_menu || v.st.ui.tab_menu is Some;
            let taken = menu && bytes == seq![0x1bu8];
            let lit = v.st.prefs.fx.caret_flash_enabled || v.st.prefs.fx.caret_glow_enabled;
            &&& !taken ==> ask == AskView::Send(bytes) && !after.st.ui.welcome_open
            &&& taken ==> ask == AskView::Nothing && !after.st.ui.context_menu
                && after.st.ui.tab_menu is None && after.st.due.paint_main
            &&& !taken && lit && printable(bytes) ==> after.st.timers.caret_anim == Some(env.now)
                && after.st.due.paint_main
            &&& !lit || !printable(bytes) ==> after.st.timers.caret_anim == v.st.timers.caret_anim
            &&& after.tabs == v.tabs && after.active == v.active && after.detached == v.detached
        }),
{
    reveal(AppView::shell_key);
    reveal(AppView::shell_ask);
    reveal(Stage::menu_takes);
    reveal(Stage::typed);
    reveal(Stage::unwelcomed);
}

/// A key that is bound carries its action out; one that means nothing does
/// nothing.
pub proof fn law_bound_keys_act(
    v: AppView,
    a: KeyAction,
    k: KeyView,
    env: Env,
    after: AppView,
    ask: AskView,
)
    requires
        v.key_step(k, env, after, ask),
        v.owner(k) == Owner::Shell,
        k.logical != LogicalView::Escape,
    ensures
        k.resolved() == DecisionView::Act(a) ==> after == v.acted(a, env.now) && ask
            == v.st.action_ask(a, v.active as usize),
        k.resolved() == DecisionView::Nothing ==> after == v && ask == AskView::Nothing,
{
    reveal(AppView::shell_key);
    reveal(AppView::shell_ask);
    reveal(Stage::unwelcomed);
}

/// What a key means: a character composed with Alt goes to the shell as it is,
/// then a dead key's text unless Command is held, and else what the bindings
/// decide.
pub proof fn law_key_meaning(k: KeyView, c: char)
    ensures
        k.alt && !k.ctrl && k.text == Some(seq![c]) && c as u32 >= 0xa0 ==> k.resolved()
            == DecisionView::Send(vstd::utf8::encode_utf8(seq![c])),
        (!k.alt || k.ctrl) && !k.sup ==> (k.dead_key matches Some(b) ==> k.resolved()
            == DecisionView::Send(b)),
        (!k.alt || k.ctrl || k.text is None) && (k.sup || k.dead_key is None) ==> k.resolved()
            == k.decided,
        k.alt && k.text == Some(seq![c]) && (c as u32) < 0x80 && (k.sup || k.dead_key is None)
            ==> k.resolved() == k.decided,
{
    if (c as u32) >= 0xa0 {
        assert(composed(seq![c])) by {
            assert(seq![c][0] as u32 >= 0x80);
        }
    }
    if (c as u32) < 0x80 {
        assert(!composed(seq![c]));
    }
}

/// Text that an input method composed goes where typed text goes: into a
/// rename, the palette's query, the search bar or the shell; and nowhere while
/// a popup, labels or copy mode have the keyboard.
pub proof fn law_composed_text(v: AppView, text: Seq<char>, now: u64)
    requires
        v.tabs.len() > 0,
        text.len() > 0,
    ensures
        ({
            let u = v.st.ui;
            let dropped = u.confirm_quit || u.confirm_close is Some || v.hint is Some || u.copy_mode
                is Some;
            let after = v.ime_text(text, now);
            let ask = v.ime_ask(text);
            &&& dropped ==> after == v && ask == AskView::Nothing
            &&& !dropped && u.renaming is Some ==> after.rename_buf == v.rename_buf
                + printable_part(text) && ask == AskView::Nothing
            &&& !dropped && u.renaming is None && u.palette_open ==> after.palette.query
                == v.palette.query + printable_part(text) && (printable_part(text).len() > 0 ==> ask
                == AskView::Refilter)
            &&& !dropped && u.renaming is None && !u.palette_open && u.search_open ==> ask
                == AskView::SearchType(printable_part(text))
            &&& !dropped && u.renaming is None && !u.palette_open && !u.search_open ==> ask
                == AskView::Send(vstd::utf8::encode_utf8(text)) && !after.st.ui.welcome_open
            &&& !dropped ==> after.st.due.paint_main
            &&& after.tabs == v.tabs && after.active == v.active
        }),
{
    reveal(AppView::ime_text);
    reveal(AppView::ime_ask);
    reveal(Stage::typed);
    reveal(Stage::unwelcomed);
}

/// Nothing is composed into emptiness.
pub proof fn law_no_text_does_nothing(v: AppView, now: u64)
    ensures
        v.ime_text(seq![], now) == v,
        v.ime_ask(seq![]) == AskView::Nothing,
{
    reveal(AppView::ime_text);
    reveal(AppView::ime_ask);
}

/// A key that types nothing that can be printed leaves the palette's list as it
/// is.
pub proof fn law_palette_ignores_control(v: AppView, k: KeyView, env: Env, after: AppView, ask: AskView)
    requires
        v.key_step(k, env, after, ask),
        v.owner(k) == Owner::Palette,
        k.chord != Some(KeyAction::OpenPalette),
        k.logical is Character || k.logical is Other,
        k.text is None || printable_part(k.text.unwrap()).len() == 0,
    ensures
        ask == AskView::Nothing,
{
    reveal(AppView::palette_key);
    reveal(AppView::palette_ask);
}

/// A step through stale matches searches the tab again first; fresh ones are
/// stepped through as they are.
pub proof fn law_stale_matches_are_searched_again(s: Stage, active: Option<u64>, now: u64)
    ensures
        s.ui.search_dirty ==> s.search_freshened(active, now).due.search_refresh == active
            && !s.search_freshened(active, now).ui.search_dirty && s.search_freshened(
            active,
            now,
        ).timers.search_refresh_at == Some(now),
        !s.ui.search_dirty ==> s.search_freshened(active, now) == s,
        s.search_freshened(active, now).ui.search_open == s.ui.search_open,
{
}

} // verus!
