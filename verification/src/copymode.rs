//! The keyboard cursor that moves over the screen and selects text.

use vstd::prelude::*;

use crate::input::{single_char, types, Ask, AskView, KeyCode, KeyPress, KeyView, LogicalKey, LogicalView, Motion};
use crate::state::{CopyMode, Due, Overlays, Stage};

verus! {

/// What the terminal tells when copy mode begins.
#[derive(Debug, Clone, Copy)]
pub struct Screen {
    pub rows: usize,
    pub cols: usize,
    pub cursor_row: usize,
    pub cursor_col: usize,
    pub cursor_visible: bool,
    pub alt_screen: bool,
}

/// The smaller of an index and the last one below `n`; nothing below none.
pub open spec fn clamp_below(i: usize, n: usize) -> usize {
    if n == 0 {
        0
    } else if i < n {
        i
    } else {
        (n - 1) as usize
    }
}

fn clamp(i: usize, n: usize) -> (r: usize)
    ensures
        r == clamp_below(i, n),
{
    if n == 0 {
        0
    } else if i < n {
        i
    } else {
        n - 1
    }
}

/// The keyboard cursor starts at the shell's cursor, or at the start of the
/// last row where that is not shown.
pub open spec fn start_of(s: Screen) -> CopyMode {
    CopyMode {
        row: if s.cursor_visible {
            clamp_below(s.cursor_row, s.rows)
        } else {
            clamp_below(s.rows, s.rows)
        },
        col: if s.cursor_visible {
            clamp_below(s.cursor_col, s.cols)
        } else {
            0
        },
        selecting: false,
        line_mode: false,
        anchor_line: 0,
        anchor_col: 0,
    }
}

fn start(s: Screen) -> (r: CopyMode)
    ensures
        r == start_of(s),
{
    let (row, col): (usize, usize) = if s.cursor_visible {
        (clamp(s.cursor_row, s.rows), clamp(s.cursor_col, s.cols))
    } else {
        (clamp(s.rows, s.rows), 0)
    };
    CopyMode { row, col, selecting: false, line_mode: false, anchor_line: 0, anchor_col: 0 }
}

/// The motion that a key means: the arrows, and the letters of vi.
pub open spec fn motion_of(k: LogicalView) -> Option<Motion> {
    match k {
        LogicalView::ArrowLeft => Some(Motion::Left),
        LogicalView::ArrowRight => Some(Motion::Right),
        LogicalView::ArrowUp => Some(Motion::Up),
        LogicalView::ArrowDown => Some(Motion::Down),
        LogicalView::Character(s) => if s.len() == 1 {
            motion_of_char(s[0])
        } else {
            None
        },
        _ => None,
    }
}

/// The motion of a letter.
pub open spec fn motion_of_char(c: char) -> Option<Motion> {
    if c == 'h' {
        Some(Motion::Left)
    } else if c == 'l' {
        Some(Motion::Right)
    } else if c == 'k' {
        Some(Motion::Up)
    } else if c == 'j' {
        Some(Motion::Down)
    } else if c == '0' {
        Some(Motion::LineStart)
    } else if c == '$' {
        Some(Motion::LineEnd)
    } else if c == 'w' {
        Some(Motion::WordFwd)
    } else if c == 'b' {
        Some(Motion::WordBack)
    } else if c == 'e' {
        Some(Motion::WordEnd)
    } else if c == 'g' {
        Some(Motion::Top)
    } else if c == 'G' {
        Some(Motion::Bottom)
    } else {
        None
    }
}

fn char_motion(c: char) -> (r: Option<Motion>)
    ensures
        r == motion_of_char(c),
{
    if c == 'h' {
        Some(Motion::Left)
    } else if c == 'l' {
        Some(Motion::Right)
    } else if c == 'k' {
        Some(Motion::Up)
    } else if c == 'j' {
        Some(Motion::Down)
    } else if c == '0' {
        Some(Motion::LineStart)
    } else if c == '$' {
        Some(Motion::LineEnd)
    } else if c == 'w' {
        Some(Motion::WordFwd)
    } else if c == 'b' {
        Some(Motion::WordBack)
    } else if c == 'e' {
        Some(Motion::WordEnd)
    } else if c == 'g' {
        Some(Motion::Top)
    } else if c == 'G' {
        Some(Motion::Bottom)
    } else {
        None
    }
}

fn key_motion(k: &LogicalKey) -> (r: Option<Motion>)
    ensures
        r == motion_of(k@),
{
    match k {
        LogicalKey::ArrowLeft => Some(Motion::Left),
        LogicalKey::ArrowRight => Some(Motion::Right),
        LogicalKey::ArrowUp => Some(Motion::Up),
        LogicalKey::ArrowDown => Some(Motion::Down),
        _ => match single_char(k) {
            Some(c) => char_motion(c),
            None => None,
        },
    }
}

/// What a key asks for in copy mode. With Ctrl only the half-page motions
/// mean anything, by the place of the key.
#[verifier::opaque]
pub open spec fn copy_ask(k: KeyView) -> AskView {
    if k.ctrl {
        if k.physical == Some(KeyCode::KeyU) {
            AskView::Motion(Motion::HalfPageUp)
        } else if k.physical == Some(KeyCode::KeyD) {
            AskView::Motion(Motion::HalfPageDown)
        } else {
            AskView::Nothing
        }
    } else if k.logical == LogicalView::Enter || types(k.logical, 'y') {
        AskView::Yank
    } else if types(k.logical, 'v') {
        AskView::ToggleSelect(false)
    } else if types(k.logical, 'V') {
        AskView::ToggleSelect(true)
    } else {
        match motion_of(k.logical) {
            Some(m) => AskView::Motion(m),
            None => AskView::Nothing,
        }
    }
}

/// The end of a selection: line, column, and whether it lies at the left side
/// of its cell.
pub type Endpoint = (i64, usize, bool);

/// A selection between two cells, from the first in reading order to the
/// last, or of whole lines.
#[derive(Debug, Clone, Copy)]
pub struct Span {
    pub start: Endpoint,
    pub end: Endpoint,
    pub lines: bool,
}

/// `a` does not come behind `b` in reading order.
pub open spec fn reads_before(a: (i64, usize), b: (i64, usize)) -> bool {
    a.0 < b.0 || (a.0 == b.0 && a.1 <= b.1)
}

impl CopyMode {
    /// The selection from the anchor to the cursor, which stands on buffer
    /// line `line`. It includes the cells at both ends.
    pub open spec fn span(self, line: i64) -> Span {
        let anchor = (self.anchor_line, self.anchor_col);
        let cursor = (line, self.col);
        if self.line_mode {
            Span {
                start: (
                    if line >= self.anchor_line {
                        self.anchor_line
                    } else {
                        line
                    },
                    0,
                    true,
                ),
                end: (
                    if line >= self.anchor_line {
                        line
                    } else {
                        self.anchor_line
                    },
                    self.col,
                    false,
                ),
                lines: true,
            }
        } else if reads_before(anchor, cursor) {
            Span {
                start: (anchor.0, anchor.1, true),
                end: (cursor.0, cursor.1, false),
                lines: false,
            }
        } else {
            Span {
                start: (cursor.0, cursor.1, true),
                end: (anchor.0, anchor.1, false),
                lines: false,
            }
        }
    }
}

impl Stage {
    /// Copy mode is over.
    pub open spec fn spec_exit_copy_mode(self) -> Stage {
        (Stage { ui: Overlays { copy_mode: None, ..self.ui }, ..self }).paint_main()
    }

    /// Copy mode is over.
    #[verifier::when_used_as_spec(spec_exit_copy_mode)]
    pub fn exit_copy_mode(self) -> (r: Stage)
        ensures
            r == self.spec_exit_copy_mode(),
    {
        (Stage { ui: Overlays { copy_mode: None, ..self.ui }, ..self }).paint_main()
    }

    /// The selection of tab `active` is to be dropped.
    pub open spec fn spec_clear_selection(self, active: Option<u64>) -> Stage {
        Stage { due: Due { selection_clear: active, ..self.due }, ..self }
    }

    /// The selection of tab `active` is to be dropped.
    #[verifier::when_used_as_spec(spec_clear_selection)]
    pub fn clear_selection(self, active: Option<u64>) -> (r: Stage)
        ensures
            r == self.spec_clear_selection(active),
    {
        Stage { due: Due { selection_clear: active, ..self.due }, ..self }
    }

    /// Enters copy mode, unless an overlay owns the keyboard, hint mode is on
    /// or a program has taken the whole screen. What was selected is dropped.
    pub fn enter_copy_mode(self, hinting: bool, active: Option<u64>, s: Screen) -> (r: Stage)
        ensures
            r == if self.keys_owned() || hinting || s.alt_screen {
                self
            } else {
                (Stage {
                    ui: Overlays { copy_mode: Some(start_of(s)), ..self.ui },
                    ..self.clear_selection(active)
                }).paint_main()
            },
    {
        if self.overlay_owns_keys() || hinting || s.alt_screen {
            return self;
        }
        let cm: CopyMode = start(s);
        (Stage {
            ui: Overlays { copy_mode: Some(cm), ..self.ui },
            ..self.clear_selection(active)
        }).paint_main()
    }

    /// Handles a key while copy mode owns the keyboard: Escape leaves it, and
    /// what else a key means is asked for.
    pub fn copy_mode_key(self, k: &KeyPress, active: Option<u64>) -> (r: (Stage, Ask))
        ensures
            ({
                let leaves = !k@.ctrl && k@.logical == LogicalView::Escape;
                &&& r.0 == if leaves {
                    self.clear_selection(active).exit_copy_mode()
                } else {
                    self
                }
                &&& r.1@ == if leaves {
                    AskView::Nothing
                } else {
                    copy_ask(k@)
                }
            }),
    {
        proof {
            reveal(copy_ask);
        }
        if k.ctrl {
            let ask: Ask = match k.physical {
                Some(KeyCode::KeyU) => Ask::Motion(Motion::HalfPageUp),
                Some(KeyCode::KeyD) => Ask::Motion(Motion::HalfPageDown),
                _ => Ask::Nothing,
            };
            return (self, ask);
        }
        match &k.logical {
            LogicalKey::Escape => {
                return (self.clear_selection(active).exit_copy_mode(), Ask::Nothing);
            },
            LogicalKey::Enter => {
                return (self, Ask::Yank);
            },
            _ => {},
        }
        match single_char(&k.logical) {
            Some('y') => {
                return (self, Ask::Yank);
            },
            Some('v') => {
                return (self, Ask::ToggleSelect(false));
            },
            Some('V') => {
                return (self, Ask::ToggleSelect(true));
            },
            _ => {},
        }
        match key_motion(&k.logical) {
            Some(m) => (self, Ask::Motion(m)),
            None => (self, Ask::Nothing),
        }
    }

    /// The keyboard cursor moved to a cell of a screen of `rows` by `cols`.
    pub fn copy_moved(self, row: usize, col: usize, rows: usize, cols: usize) -> (r: Stage)
        ensures
            r == (match self.ui.copy_mode {
                Some(cm) => (Stage {
                    ui: Overlays {
                        copy_mode: Some(
                            CopyMode {
                                row: clamp_below(row, rows),
                                col: clamp_below(col, cols),
                                ..cm
                            },
                        ),
                        ..self.ui
                    },
                    ..self
                }).paint_main(),
                None => self,
            }),
    {
        match self.ui.copy_mode {
            Some(cm) => (Stage {
                ui: Overlays {
                    copy_mode: Some(
                        CopyMode { row: clamp(row, rows), col: clamp(col, cols), ..cm },
                    ),
                    ..self.ui
                },
                ..self
            }).paint_main(),
            None => self,
        }
    }

    /// Begins a selection at the cursor, which stands on buffer line `line`,
    /// or ends the one of the same kind that is under way. Tells whether one
    /// is under way then; ended, what was selected is dropped.
    pub fn copy_toggle_select(self, lines: bool, line: i64, active: Option<u64>) -> (r: (Stage, bool))
        ensures
            r == (match self.ui.copy_mode {
                Some(cm) => if cm.selecting && cm.line_mode == lines {
                    (
                        (Stage {
                            ui: Overlays {
                                copy_mode: Some(CopyMode { selecting: false, ..cm }),
                                ..self.ui
                            },
                            ..self.clear_selection(active)
                        }).paint_main(),
                        false,
                    )
                } else {
                    (
                        Stage {
                            ui: Overlays {
                                copy_mode: Some(
                                    CopyMode {
                                        selecting: true,
                                        line_mode: lines,
                                        anchor_line: line,
                                        anchor_col: cm.col,
                                        ..cm
                                    },
                                ),
                                ..self.ui
                            },
                            ..self
                        },
                        true,
                    )
                },
                None => (self.clear_selection(active).paint_main(), false),
            }),
    {
        match self.ui.copy_mode {
            Some(cm) => if cm.selecting && cm.line_mode == lines {
                (
                    (Stage {
                        ui: Overlays {
                            copy_mode: Some(CopyMode { selecting: false, ..cm }),
                            ..self.ui
                        },
                        ..self.clear_selection(active)
                    }).paint_main(),
                    false,
                )
            } else {
                (
                    Stage {
                        ui: Overlays {
                            copy_mode: Some(
                                CopyMode {
                                    selecting: true,
                                    line_mode: lines,
                                    anchor_line: line,
                                    anchor_col: cm.col,
                                    ..cm
                                },
                            ),
                            ..self.ui
                        },
                        ..self
                    },
                    true,
                )
            },
            None => (self.clear_selection(active).paint_main(), false),
        }
    }

    /// The selection to show while the cursor stands on buffer line `line`;
    /// none while nothing is being selected.
    pub fn copy_span(self, line: i64) -> (r: Option<Span>)
        ensures
            r == (match self.ui.copy_mode {
                Some(cm) => if cm.selecting {
                    Some(cm.span(line))
                } else {
                    None
                },
                None => None,
            }),
    {
        match self.ui.copy_mode {
            Some(cm) => {
                if !cm.selecting {
                    return None;
                }
                if cm.line_mode {
                    let (first, last): (i64, i64) = if line >= cm.anchor_line {
                        (cm.anchor_line, line)
                    } else {
                        (line, cm.anchor_line)
                    };
                    return Some(
                        Span { start: (first, 0, true), end: (last, cm.col, false), lines: true },
                    );
                }
                let forward: bool = cm.anchor_line < line || (cm.anchor_line == line
                    && cm.anchor_col <= cm.col);
                if forward {
                    Some(
                        Span {
                            start: (cm.anchor_line, cm.anchor_col, true),
                            end: (line, cm.col, false),
                            lines: false,
                        },
                    )
                } else {
                    Some(
                        Span {
                            start: (line, cm.col, true),
                            end: (cm.anchor_line, cm.anchor_col, false),
                            lines: false,
                        },
                    )
                }
            },
            None => None,
        }
    }

    /// The keyboard selection was put into the clipboard: copy mode ends.
    pub fn copy_mode_yanked(self, active: Option<u64>) -> (r: Stage)
        ensures
            r == self.clear_selection(active).exit_copy_mode(),
    {
        self.clear_selection(active).exit_copy_mode()
    }
}

/// A selection always runs in reading order, from the left side of its first
/// cell to the right side of its last one.
pub proof fn law_span_in_reading_order(cm: CopyMode, line: i64)
    ensures
        !cm.line_mode ==> reads_before(
            (cm.span(line).start.0, cm.span(line).start.1),
            (cm.span(line).end.0, cm.span(line).end.1),
        ),
        cm.span(line).start.0 <= cm.span(line).end.0,
        cm.span(line).start.2,
        !cm.span(line).end.2,
{
}

/// Which end was the anchor does not matter: the selection from `a` to `b` is
/// that from `b` to `a`.
pub proof fn law_span_symmetric(cm: CopyMode, other: CopyMode, line: i64)
    requires
        !cm.line_mode,
        !other.line_mode,
        other.anchor_line == line,
        other.anchor_col == cm.col,
        other.col == cm.anchor_col,
    ensures
        other.span(cm.anchor_line) == cm.span(line),
{
}

/// Copy mode's keys, with Control not held: the letters of vi and the arrows
/// move, y and Enter copy, v and V select.
pub proof fn law_copy_keys(k: KeyView, c: char)
    requires
        !k.ctrl,
    ensures
        k.logical == LogicalView::ArrowLeft || types(k.logical, 'h') ==> copy_ask(k)
            == AskView::Motion(Motion::Left),
        k.logical == LogicalView::ArrowRight || types(k.logical, 'l') ==> copy_ask(k)
            == AskView::Motion(Motion::Right),
        k.logical == LogicalView::ArrowUp || types(k.logical, 'k') ==> copy_ask(k)
            == AskView::Motion(Motion::Up),
        k.logical == LogicalView::ArrowDown || types(k.logical, 'j') ==> copy_ask(k)
            == AskView::Motion(Motion::Down),
        types(k.logical, '0') ==> copy_ask(k) == AskView::Motion(Motion::LineStart),
        types(k.logical, '$') ==> copy_ask(k) == AskView::Motion(Motion::LineEnd),
        types(k.logical, 'w') ==> copy_ask(k) == AskView::Motion(Motion::WordFwd),
        types(k.logical, 'b') ==> copy_ask(k) == AskView::Motion(Motion::WordBack),
        types(k.logical, 'e') ==> copy_ask(k) == AskView::Motion(Motion::WordEnd),
        types(k.logical, 'g') ==> copy_ask(k) == AskView::Motion(Motion::Top),
        types(k.logical, 'G') ==> copy_ask(k) == AskView::Motion(Motion::Bottom),
        types(k.logical, 'y') || k.logical == LogicalView::Enter ==> copy_ask(k) == AskView::Yank,
        types(k.logical, 'v') ==> copy_ask(k) == AskView::ToggleSelect(false),
        types(k.logical, 'V') ==> copy_ask(k) == AskView::ToggleSelect(true),
        k.logical == LogicalView::Character(seq![c]) ==> types(k.logical, c),
        k.logical matches LogicalView::Character(s) ==> s.len() != 1 ==> copy_ask(k)
            == AskView::Nothing,
        copy_ask(k) matches AskView::Motion(m) ==> m != Motion::HalfPageUp && m
            != Motion::HalfPageDown,
{
    reveal(copy_ask);
}

/// With Control held only the half pages are left, on the keys U and D
/// whatever the layout types there.
pub proof fn law_copy_pages(k: KeyView)
    requires
        k.ctrl,
    ensures
        k.physical == Some(KeyCode::KeyU) ==> copy_ask(k) == AskView::Motion(Motion::HalfPageUp),
        k.physical == Some(KeyCode::KeyD) ==> copy_ask(k) == AskView::Motion(Motion::HalfPageDown),
        k.physical != Some(KeyCode::KeyU) && k.physical != Some(KeyCode::KeyD) ==> copy_ask(k)
            == AskView::Nothing,
{
    reveal(copy_ask);
}

/// The keyboard cursor begins where the shell's stands, or at the beginning of
/// the last row where that is hidden, and selects nothing yet.
pub proof fn law_copy_mode_begins(s: Screen)
    requires
        s.rows > 0,
        s.cols > 0,
    ensures
        !start_of(s).selecting,
        !start_of(s).line_mode,
        start_of(s).row < s.rows,
        start_of(s).col < s.cols,
        s.cursor_visible && s.cursor_row < s.rows ==> start_of(s).row == s.cursor_row,
        s.cursor_visible && s.cursor_col < s.cols ==> start_of(s).col == s.cursor_col,
        !s.cursor_visible ==> start_of(s).row == s.rows - 1 && start_of(s).col == 0,
{
}

/// A selection runs between the anchor and the cursor; by lines it takes them
/// whole, from the first column of the upper one.
pub proof fn law_span_joins_anchor_and_cursor(cm: CopyMode, line: i64)
    ensures
        ({
            let s = cm.span(line);
            let a = (cm.anchor_line, cm.anchor_col);
            let c = (line, cm.col);
            let from = (s.start.0, s.start.1);
            let to = (s.end.0, s.end.1);
            &&& s.lines == cm.line_mode
            &&& !cm.line_mode ==> (from == a && to == c) || (from == c && to == a)
            &&& cm.line_mode ==> s.start.1 == 0
            &&& cm.line_mode ==> (s.start.0 == cm.anchor_line && s.end.0 == line) || (s.start.0
                == line && s.end.0 == cm.anchor_line)
        }),
{
}

/// Leaving copy mode ends it and repaints; a selection is dropped in the tab
/// that has it.
pub proof fn law_leaving_copy_mode(s: Stage, tab: u64)
    ensures
        s.exit_copy_mode().ui.copy_mode is None,
        s.exit_copy_mode().due.paint_main,
        s.clear_selection(Some(tab)).due.selection_clear == Some(tab),
{
}

} // verus!
