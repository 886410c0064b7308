//! Keys as the application sees them, and what it asks of the outside.

use vstd::prelude::*;

use crate::bytes::{ascii_lower, to_ascii_lower};
use crate::state::FxSlider;
use crate::zone::ResizeDirection;

verus! {

/// The physical letter keys; every other key is `Other`.
#[derive(Debug, Clone, Copy, PartialEq, Eq, Structural)]
pub enum KeyCode {
    KeyA,
    KeyB,
    KeyC,
    KeyD,
    KeyE,
    KeyF,
    KeyG,
    KeyH,
    KeyI,
    KeyJ,
    KeyK,
    KeyL,
    KeyM,
    KeyN,
    KeyO,
    KeyP,
    KeyQ,
    KeyR,
    KeyS,
    KeyT,
    KeyU,
    KeyV,
    KeyW,
    KeyX,
    KeyY,
    KeyZ,
    Other,
}

/// The letter on a key of an American keyboard.
pub open spec fn letter_of(code: KeyCode) -> Option<char> {
    match code {
        KeyCode::KeyA => Some('a'),
        KeyCode::KeyB => Some('b'),
        KeyCode::KeyC => Some('c'),
        KeyCode::KeyD => Some('d'),
        KeyCode::KeyE => Some('e'),
        KeyCode::KeyF => Some('f'),
        KeyCode::KeyG => Some('g'),
        KeyCode::KeyH => Some('h'),
        KeyCode::KeyI => Some('i'),
        KeyCode::KeyJ => Some('j'),
        KeyCode::KeyK => Some('k'),
        KeyCode::KeyL => Some('l'),
        KeyCode::KeyM => Some('m'),
        KeyCode::KeyN => Some('n'),
        KeyCode::KeyO => Some('o'),
        KeyCode::KeyP => Some('p'),
        KeyCode::KeyQ => Some('q'),
        KeyCode::KeyR => Some('r'),
        KeyCode::KeyS => Some('s'),
        KeyCode::KeyT => Some('t'),
        KeyCode::KeyU => Some('u'),
        KeyCode::KeyV => Some('v'),
        KeyCode::KeyW => Some('w'),
        KeyCode::KeyX => Some('x'),
        KeyCode::KeyY => Some('y'),
        KeyCode::KeyZ => Some('z'),
        KeyCode::Other => None,
    }
}

/// The letter on a key of an American keyboard.
pub fn keycode_letter(code: KeyCode) -> (r: Option<char>)
    ensures
        r == letter_of(code),
{
    match code {
        KeyCode::KeyA => Some('a'),
        KeyCode::KeyB => Some('b'),
        KeyCode::KeyC => Some('c'),
        KeyCode::KeyD => Some('d'),
        KeyCode::KeyE => Some('e'),
        KeyCode::KeyF => Some('f'),
        KeyCode::KeyG => Some('g'),
        KeyCode::KeyH => Some('h'),
        KeyCode::KeyI => Some('i'),
        KeyCode::KeyJ => Some('j'),
        KeyCode::KeyK => Some('k'),
        KeyCode::KeyL => Some('l'),
        KeyCode::KeyM => Some('m'),
        KeyCode::KeyN => Some('n'),
        KeyCode::KeyO => Some('o'),
        KeyCode::KeyP => Some('p'),
        KeyCode::KeyQ => Some('q'),
        KeyCode::KeyR => Some('r'),
        KeyCode::KeyS => Some('s'),
        KeyCode::KeyT => Some('t'),
        KeyCode::KeyU => Some('u'),
        KeyCode::KeyV => Some('v'),
        KeyCode::KeyW => Some('w'),
        KeyCode::KeyX => Some('x'),
        KeyCode::KeyY => Some('y'),
        KeyCode::KeyZ => Some('z'),
        KeyCode::Other => None,
    }
}

/// What a key means on the user's layout.
#[derive(Debug)]
pub enum LogicalKey {
    Enter,
    Escape,
    Backspace,
    ArrowUp,
    ArrowDown,
    ArrowLeft,
    ArrowRight,
    PageUp,
    PageDown,
    F3,
    Character(String),
    Other,
}

/// View of a [`LogicalKey`].
pub enum LogicalView {
    Enter,
    Escape,
    Backspace,
    ArrowUp,
    ArrowDown,
    ArrowLeft,
    ArrowRight,
    PageUp,
    PageDown,
    F3,
    Character(Seq<char>),
    Other,
}

impl View for LogicalKey {
    type V = LogicalView;

    open spec fn view(&self) -> LogicalView {
        match self {
            LogicalKey::Enter => LogicalView::Enter,
            LogicalKey::Escape => LogicalView::Escape,
            LogicalKey::Backspace => LogicalView::Backspace,
            LogicalKey::ArrowUp => LogicalView::ArrowUp,
            LogicalKey::ArrowDown => LogicalView::ArrowDown,
            LogicalKey::ArrowLeft => LogicalView::ArrowLeft,
            LogicalKey::ArrowRight => LogicalView::ArrowRight,
            LogicalKey::PageUp => LogicalView::PageUp,
            LogicalKey::PageDown => LogicalView::PageDown,
            LogicalKey::F3 => LogicalView::F3,
            LogicalKey::Character(s) => LogicalView::Character(s@),
            LogicalKey::Other => LogicalView::Other,
        }
    }
}

/// The key types exactly the character `c`.
pub open spec fn types(k: LogicalView, c: char) -> bool {
    k matches LogicalView::Character(s) && s.len() == 1 && s[0] == c
}

/// The one character that a key types, if it types exactly one.
pub fn single_char(k: &LogicalKey) -> (r: Option<char>)
    ensures
        r == (match k@ {
            LogicalView::Character(s) => if s.len() == 1 {
                Some(s[0])
            } else {
                None
            },
            _ => None,
        }),
{
    match k {
        LogicalKey::Character(s) => {
            let t: &str = s.as_str();
            if t.unicode_len() == 1 {
                Some(t.get_char(0))
            } else {
                None
            }
        },
        _ => None,
    }
}

/// An ASCII letter.
pub open spec fn is_letter(c: char) -> bool {
    ('a' <= c && c <= 'z') || ('A' <= c && c <= 'Z')
}

/// The letter that a key stands for in hint mode, whatever a modifier made of
/// it: the one it types, else the one printed on it.
pub open spec fn base_letter(physical: Option<KeyCode>, logical: LogicalView) -> Option<char> {
    match logical {
        LogicalView::Character(s) if s.len() == 1 && is_letter(s[0]) => Some(ascii_lower(s[0])),
        _ => match physical {
            Some(code) => letter_of(code),
            None => None,
        },
    }
}

/// The letter that a key stands for in hint mode.
pub fn hint_base_letter(physical: Option<KeyCode>, logical: &LogicalKey) -> (r: Option<char>)
    ensures
        r == base_letter(physical, logical@),
{
    if let Some(c) = single_char(logical) {
        let l: char = to_ascii_lower(c);
        if 'a' <= l && l <= 'z' {
            return Some(l);
        }
    }
    match physical {
        Some(code) => keycode_letter(code),
        None => None,
    }
}

/// The modifier that makes links clickable: Ctrl, and on macOS also Cmd.
pub fn link_modifier_held(ctrl: bool, sup: bool, macos: bool) -> (r: bool)
    ensures
        r == (ctrl || (macos && sup)),
{
    ctrl || (macos && sup)
}

/// The application's own actions, as key bindings name them.
#[derive(Debug, Clone, Copy, PartialEq, Eq, Structural)]
pub enum KeyAction {
    TogglePanel,
    ClosePanel,
    OpenPalette,
    NewTab,
    CloseTab,
    DetachTab,
    NextTab,
    PrevTab,
    SelectTab(usize),
    OpacityUp,
    OpacityDown,
    ScrollPageUp,
    ScrollPageDown,
    FontUp,
    FontDown,
    FontReset,
    Copy,
    Paste,
    SearchToggle,
    PrevPrompt,
    NextPrompt,
    SelectAll,
    Quit,
    HintMode,
    CopyMode,
}

/// What a key press comes to when no overlay takes it.
#[derive(Debug)]
pub enum Decision {
    Act(KeyAction),
    Send(Vec<u8>),
    Nothing,
}

/// View of a [`Decision`].
pub enum DecisionView {
    Act(KeyAction),
    Send(Seq<u8>),
    Nothing,
}

impl View for Decision {
    type V = DecisionView;

    open spec fn view(&self) -> DecisionView {
        match self {
            Decision::Act(a) => DecisionView::Act(*a),
            Decision::Send(b) => DecisionView::Send(b@),
            Decision::Nothing => DecisionView::Nothing,
        }
    }
}

/// A key press in the main window.
#[derive(Debug)]
pub struct KeyPress {
    /// The key was held when the window gained the focus.
    pub synthetic: bool,
    pub logical: LogicalKey,
    pub physical: Option<KeyCode>,
    /// The text that the key produced.
    pub text: Option<String>,
    pub ctrl: bool,
    pub shift: bool,
    pub alt: bool,
    pub sup: bool,
    /// The action bound to the key with its modifiers.
    pub chord: Option<KeyAction>,
    /// The bytes that a dead key composed.
    pub dead_key: Option<Vec<u8>>,
    /// What the key comes to without composition.
    pub decided: Decision,
}

/// View of a [`KeyPress`].
pub struct KeyView {
    pub synthetic: bool,
    pub logical: LogicalView,
    pub physical: Option<KeyCode>,
    pub text: Option<Seq<char>>,
    pub ctrl: bool,
    pub shift: bool,
    pub alt: bool,
    pub sup: bool,
    pub chord: Option<KeyAction>,
    pub dead_key: Option<Seq<u8>>,
    pub decided: DecisionView,
}

impl View for KeyPress {
    type V = KeyView;

    open spec fn view(&self) -> KeyView {
        KeyView {
            synthetic: self.synthetic,
            logical: self.logical@,
            physical: self.physical,
            text: match self.text {
                Some(t) => Some(t@),
                None => None,
            },
            ctrl: self.ctrl,
            shift: self.shift,
            alt: self.alt,
            sup: self.sup,
            chord: self.chord,
            dead_key: match self.dead_key {
                Some(b) => Some(b@),
                None => None,
            },
            decided: self.decided@,
        }
    }
}

/// The motions of the keyboard cursor.
#[derive(Debug, Clone, Copy, PartialEq, Eq, Structural)]
pub enum Motion {
    Left,
    Right,
    Up,
    Down,
    LineStart,
    LineEnd,
    WordFwd,
    WordBack,
    WordEnd,
    Top,
    Bottom,
    HalfPageUp,
    HalfPageDown,
}

/// The sliders of the settings window.
#[derive(Debug, Clone, Copy, PartialEq, Eq, Structural)]
pub enum Slider {
    Opacity,
    Radius,
    DropdownHeight,
    DropdownWidth,
    Fx(FxSlider),
}

/// What a program that reads the mouse is told.
#[derive(Debug, Clone, Copy, PartialEq, Eq, Structural)]
pub enum MouseReport {
    LeftPress,
    LeftRelease,
    /// The pointer moved with this button down; `3` stands for none.
    Motion(u8),
    WheelUp,
    WheelDown,
}

/// What the application asks of the terminals, the clipboard and the system.
#[derive(Debug)]
pub enum Ask {
    Nothing,
    /// Start a shell for a new tab, in the directory of the tab that asks.
    SpawnTab,
    /// Move this tab into a window of its own.
    Detach(usize),
    /// Build the settings window.
    OpenSettings,
    /// Match the palette's commands against its query.
    Refilter,
    /// Gather the palette's commands and match them against its query.
    FillPalette,
    /// Carry out a palette command.
    Run(crate::state::PaletteCmd),
    FontUp,
    FontDown,
    FontReset,
    OpacityUp,
    OpacityDown,
    /// Scroll by a page, up or down.
    ScrollPage(bool),
    /// Jump to the next (`true`) or previous prompt, and tell whether there was
    /// one.
    JumpPrompt(bool),
    /// Copy what is selected, and tell how that ended.
    CopySelection,
    PasteClipboard,
    SelectAll,
    /// Look for tokens and enter hint mode.
    EnterHint,
    /// Place the keyboard cursor and enter copy mode.
    EnterCopy,
    Motion(Motion),
    /// Begin or end a selection, by lines or by characters.
    ToggleSelect(bool),
    /// Put the keyboard selection into the clipboard.
    Yank,
    /// Step to the next older (`true`) or newer match.
    SearchNav(bool),
    /// Add this text to the search.
    SearchType(String),
    /// Take the last character off the search.
    SearchPop,
    /// Add what of the clipboard's text can be searched for to the search.
    SearchPaste,
    /// Scroll to the bottom and send these bytes to the shell.
    Send(Vec<u8>),
    /// Hand this link to the system.
    OpenUrl(String),
    /// Tell that this link is not opened.
    RefuseUrl(String),
    CopyText(String),
    /// Write or remove the autostart entry.
    SetAutostart(bool),
    /// Forget the user's key bindings.
    ResetKeys,
    /// Move this tab into a window of its own where the pointer is.
    DetachHere(usize),
    /// Tell the program that reads the mouse, this many times.
    Report(MouseReport, u32),
    /// Send the arrow key, up or down, this many times.
    Arrows(bool, u32),
    /// Scroll by these lines; upwards where they are positive.
    ScrollLines(i32),
    /// Scroll to where the pointer holds the scroll bar.
    ScrollToPointer,
    /// Drop what is selected and begin a text selection under the pointer.
    BeginSelection,
    /// Copy what is selected, and tell how that ended.
    EndSelection,
    /// Let the system resize the window.
    DragResize(ResizeDirection),
    /// Let the system move the window.
    DragWindow,
    ToggleMaximized,
    Minimize,
    UiFontUp,
    UiFontDown,
    UiFontReset,
    /// Take this slider's value from where the pointer is.
    Slide(Slider),
}

/// View of an [`Ask`].
pub enum AskView {
    Nothing,
    SpawnTab,
    Detach(int),
    OpenSettings,
    Refilter,
    FillPalette,
    Run(crate::state::PaletteCmd),
    FontUp,
    FontDown,
    FontReset,
    OpacityUp,
    OpacityDown,
    ScrollPage(bool),
    JumpPrompt(bool),
    CopySelection,
    PasteClipboard,
    SelectAll,
    EnterHint,
    EnterCopy,
    Motion(Motion),
    ToggleSelect(bool),
    Yank,
    SearchNav(bool),
    SearchType(Seq<char>),
    SearchPop,
    SearchPaste,
    Send(Seq<u8>),
    OpenUrl(Seq<char>),
    RefuseUrl(Seq<char>),
    CopyText(Seq<char>),
    SetAutostart(bool),
    ResetKeys,
    DetachHere(int),
    Report(MouseReport, u32),
    Arrows(bool, u32),
    ScrollLines(i32),
    ScrollToPointer,
    BeginSelection,
    EndSelection,
    DragResize(ResizeDirection),
    DragWindow,
    ToggleMaximized,
    Minimize,
    UiFontUp,
    UiFontDown,
    UiFontReset,
    Slide(Slider),
}

impl View for Ask {
    type V = AskView;

    open spec fn view(&self) -> AskView {
        match self {
            Ask::Nothing => AskView::Nothing,
            Ask::SpawnTab => AskView::SpawnTab,
            Ask::Detach(i) => AskView::Detach(*i as int),
            Ask::OpenSettings => AskView::OpenSettings,
            Ask::Refilter => AskView::Refilter,
            Ask::FillPalette => AskView::FillPalette,
            Ask::Run(c) => AskView::Run(*c),
            Ask::FontUp => AskView::FontUp,
            Ask::FontDown => AskView::FontDown,
            Ask::FontReset => AskView::FontReset,
            Ask::OpacityUp => AskView::OpacityUp,
            Ask::OpacityDown => AskView::OpacityDown,
            Ask::ScrollPage(up) => AskView::ScrollPage(*up),
            Ask::JumpPrompt(f) => AskView::JumpPrompt(*f),
            Ask::CopySelection => AskView::CopySelection,
            Ask::PasteClipboard => AskView::PasteClipboard,
            Ask::SelectAll => AskView::SelectAll,
            Ask::EnterHint => AskView::EnterHint,
            Ask::EnterCopy => AskView::EnterCopy,
            Ask::Motion(m) => AskView::Motion(*m),
            Ask::ToggleSelect(l) => AskView::ToggleSelect(*l),
            Ask::Yank => AskView::Yank,
            Ask::SearchNav(o) => AskView::SearchNav(*o),
            Ask::SearchType(t) => AskView::SearchType(t@),
            Ask::SearchPop => AskView::SearchPop,
            Ask::SearchPaste => AskView::SearchPaste,
            Ask::Send(b) => AskView::Send(b@),
            Ask::OpenUrl(t) => AskView::OpenUrl(t@),
            Ask::RefuseUrl(t) => AskView::RefuseUrl(t@),
            Ask::CopyText(t) => AskView::CopyText(t@),
            Ask::SetAutostart(b) => AskView::SetAutostart(*b),
            Ask::ResetKeys => AskView::ResetKeys,
            Ask::DetachHere(i) => AskView::DetachHere(*i as int),
            Ask::Report(m, n) => AskView::Report(*m, *n),
            Ask::Arrows(up, n) => AskView::Arrows(*up, *n),
            Ask::ScrollLines(n) => AskView::ScrollLines(*n),
            Ask::ScrollToPointer => AskView::ScrollToPointer,
            Ask::BeginSelection => AskView::BeginSelection,
            Ask::EndSelection => AskView::EndSelection,
            Ask::DragResize(d) => AskView::DragResize(*d),
            Ask::DragWindow => AskView::DragWindow,
            Ask::ToggleMaximized => AskView::ToggleMaximized,
            Ask::Minimize => AskView::Minimize,
            Ask::UiFontUp => AskView::UiFontUp,
            Ask::UiFontDown => AskView::UiFontDown,
            Ask::UiFontReset => AskView::UiFontReset,
            Ask::Slide(s) => AskView::Slide(*s),
        }
    }
}

/// A request and its view are of the same kind and carry the same values.
pub proof fn law_requests_are_seen_as_they_are(a: Ask)
    ensures
        (a is Nothing) == (a@ is Nothing),
        (a is SpawnTab) == (a@ is SpawnTab),
        (a is Detach) == (a@ is Detach),
        (a is OpenSettings) == (a@ is OpenSettings),
        (a is Refilter) == (a@ is Refilter),
        (a is FillPalette) == (a@ is FillPalette),
        (a is Run) == (a@ is Run),
        (a is FontUp) == (a@ is FontUp),
        (a is FontDown) == (a@ is FontDown),
        (a is FontReset) == (a@ is FontReset),
        (a is OpacityUp) == (a@ is OpacityUp),
        (a is OpacityDown) == (a@ is OpacityDown),
        (a is ScrollPage) == (a@ is ScrollPage),
        (a is JumpPrompt) == (a@ is JumpPrompt),
        (a is CopySelection) == (a@ is CopySelection),
        (a is PasteClipboard) == (a@ is PasteClipboard),
        (a is SelectAll) == (a@ is SelectAll),
        (a is EnterHint) == (a@ is EnterHint),
        (a is EnterCopy) == (a@ is EnterCopy),
        (a is Motion) == (a@ is Motion),
        (a is ToggleSelect) == (a@ is ToggleSelect),
        (a is Yank) == (a@ is Yank),
        (a is SearchNav) == (a@ is SearchNav),
        (a is SearchType) == (a@ is SearchType),
        (a is SearchPop) == (a@ is SearchPop),
        (a is SearchPaste) == (a@ is SearchPaste),
        (a is Send) == (a@ is Send),
        (a is OpenUrl) == (a@ is OpenUrl),
        (a is RefuseUrl) == (a@ is RefuseUrl),
        (a is CopyText) == (a@ is CopyText),
        (a is SetAutostart) == (a@ is SetAutostart),
        (a is ResetKeys) == (a@ is ResetKeys),
        (a is DetachHere) == (a@ is DetachHere),
        (a is Report) == (a@ is Report),
        (a is Arrows) == (a@ is Arrows),
        (a is ScrollLines) == (a@ is ScrollLines),
        (a is ScrollToPointer) == (a@ is ScrollToPointer),
        (a is BeginSelection) == (a@ is BeginSelection),
        (a is EndSelection) == (a@ is EndSelection),
        (a is DragResize) == (a@ is DragResize),
        (a is DragWindow) == (a@ is DragWindow),
        (a is ToggleMaximized) == (a@ is ToggleMaximized),
        (a is Minimize) == (a@ is Minimize),
        (a is UiFontUp) == (a@ is UiFontUp),
        (a is UiFontDown) == (a@ is UiFontDown),
        (a is UiFontReset) == (a@ is UiFontReset),
        (a is Slide) == (a@ is Slide),
        a matches Ask::Detach(x) ==> a@->Detach_0 == x,
        a matches Ask::Run(x) ==> a@->Run_0 == x,
        a matches Ask::ScrollPage(x) ==> a@->ScrollPage_0 == x,
        a matches Ask::JumpPrompt(x) ==> a@->JumpPrompt_0 == x,
        a matches Ask::Motion(x) ==> a@->Motion_0 == x,
        a matches Ask::ToggleSelect(x) ==> a@->ToggleSelect_0 == x,
        a matches Ask::SearchNav(x) ==> a@->SearchNav_0 == x,
        a matches Ask::SearchType(x) ==> a@->SearchType_0 == x@,
        a matches Ask::Send(x) ==> a@->Send_0 == x@,
        a matches Ask::OpenUrl(x) ==> a@->OpenUrl_0 == x@,
        a matches Ask::RefuseUrl(x) ==> a@->RefuseUrl_0 == x@,
        a matches Ask::CopyText(x) ==> a@->CopyText_0 == x@,
        a matches Ask::SetAutostart(x) ==> a@->SetAutostart_0 == x,
        a matches Ask::DetachHere(x) ==> a@->DetachHere_0 == x,
        a matches Ask::Report(x, y) ==> a@->Report_0 == x && a@->Report_1 == y,
        a matches Ask::Arrows(x, y) ==> a@->Arrows_0 == x && a@->Arrows_1 == y,
        a matches Ask::ScrollLines(x) ==> a@->ScrollLines_0 == x,
        a matches Ask::DragResize(x) ==> a@->DragResize_0 == x,
        a matches Ask::Slide(x) ==> a@->Slide_0 == x,
{
}

/// A key is seen as the key it is, with its text, modifiers and meaning.
pub proof fn law_keys_are_seen_as_they_are(k: KeyPress)
    ensures
        k@.synthetic == k.synthetic,
        k@.physical == k.physical,
        k@.ctrl == k.ctrl,
        k@.shift == k.shift,
        k@.alt == k.alt,
        k@.sup == k.sup,
        k@.chord == k.chord,
        k.text is None <==> k@.text is None,
        k.text matches Some(t) ==> k@.text == Some(t@),
        k.dead_key is None <==> k@.dead_key is None,
        k.dead_key matches Some(b) ==> k@.dead_key == Some(b@),
        k.decided matches Decision::Act(a) ==> k@.decided == DecisionView::Act(a),
        k.decided matches Decision::Send(b) ==> k@.decided == DecisionView::Send(b@),
        k.decided is Nothing <==> k@.decided is Nothing,
        k.logical matches LogicalKey::Character(s) ==> k@.logical == LogicalView::Character(s@),
        (k.logical is Enter) == (k@.logical is Enter),
        (k.logical is Escape) == (k@.logical is Escape),
        (k.logical is Backspace) == (k@.logical is Backspace),
        (k.logical is ArrowUp) == (k@.logical is ArrowUp),
        (k.logical is ArrowDown) == (k@.logical is ArrowDown),
        (k.logical is ArrowLeft) == (k@.logical is ArrowLeft),
        (k.logical is ArrowRight) == (k@.logical is ArrowRight),
        (k.logical is PageUp) == (k@.logical is PageUp),
        (k.logical is PageDown) == (k@.logical is PageDown),
        (k.logical is F3) == (k@.logical is F3),
        (k.logical is Character) == (k@.logical is Character),
        (k.logical is Other) == (k@.logical is Other),
{
}

/// The key that bears a letter means that letter, in lower case.
pub proof fn law_key_letters(code: KeyCode, c: char)
    ensures
        letter_of(KeyCode::KeyA) == Some('a'),
        letter_of(KeyCode::KeyB) == Some('b'),
        letter_of(KeyCode::KeyC) == Some('c'),
        letter_of(KeyCode::KeyD) == Some('d'),
        letter_of(KeyCode::KeyE) == Some('e'),
        letter_of(KeyCode::KeyF) == Some('f'),
        letter_of(KeyCode::KeyG) == Some('g'),
        letter_of(KeyCode::KeyH) == Some('h'),
        letter_of(KeyCode::KeyI) == Some('i'),
        letter_of(KeyCode::KeyJ) == Some('j'),
        letter_of(KeyCode::KeyK) == Some('k'),
        letter_of(KeyCode::KeyL) == Some('l'),
        letter_of(KeyCode::KeyM) == Some('m'),
        letter_of(KeyCode::KeyN) == Some('n'),
        letter_of(KeyCode::KeyO) == Some('o'),
        letter_of(KeyCode::KeyP) == Some('p'),
        letter_of(KeyCode::KeyQ) == Some('q'),
        letter_of(KeyCode::KeyR) == Some('r'),
        letter_of(KeyCode::KeyS) == Some('s'),
        letter_of(KeyCode::KeyT) == Some('t'),
        letter_of(KeyCode::KeyU) == Some('u'),
        letter_of(KeyCode::KeyV) == Some('v'),
        letter_of(KeyCode::KeyW) == Some('w'),
        letter_of(KeyCode::KeyX) == Some('x'),
        letter_of(KeyCode::KeyY) == Some('y'),
        letter_of(KeyCode::KeyZ) == Some('z'),
        letter_of(code) is None <==> code == KeyCode::Other,
        letter_of(code) == Some(c) ==> 'a' <= c && c <= 'z',
{
}

/// A letter that the layout types counts in lower case, whichever key typed
/// it; anything else counts as the letter on its key.
pub proof fn law_base_letter(physical: Option<KeyCode>, c: char, other: LogicalView)
    ensures
        'a' <= c && c <= 'z' ==> base_letter(physical, LogicalView::Character(seq![c])) == Some(c),
        'A' <= c && c <= 'Z' ==> base_letter(physical, LogicalView::Character(seq![c])) == Some(
            ((c as u32) + 32) as char,
        ),
        !(other is Character) ==> base_letter(None, other) is None,
        !(other is Character) ==> (physical matches Some(code) ==> base_letter(physical, other)
            == letter_of(code)),
        c < 'A' ==> (physical matches Some(code) ==> base_letter(
            physical,
            LogicalView::Character(seq![c]),
        ) == letter_of(code)),
{
}

} // verus!
