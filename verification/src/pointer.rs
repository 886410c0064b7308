//! The pointer in the main window: motion, releases, the other buttons and the
//! wheel.

use vstd::prelude::*;

use crate::links::{desired_cursor, shape_at};
use crate::state::{App, AppView, Due, Overlays, Pointer, Stage, TabDrag};
use crate::tabs::{lemma_narrow, lemma_narrow_trans, lemma_wf_narrow};
use crate::zone::{CursorIcon, ResizeZone};

verus! {

/// How long the hint on Shift+drag shows, in nanoseconds.
pub const SHIFT_HINT_SHOWN: u64 = 3_500_000_000;

/// How long the hint then stays away, in nanoseconds.
pub const SHIFT_HINT_COOLDOWN: u64 = 25_000_000_000;

/// What a motion of the pointer meets.
#[derive(Debug, Clone, Copy)]
pub struct PointerMove {
    /// The program wants to hear of drags.
    pub wants_drag: bool,
    /// The program wants to hear of every motion.
    pub wants_motion: bool,
    /// The pointer entered another cell.
    pub cell_changed: bool,
    /// The cell under the pointer is known.
    pub cell_known: bool,
    /// The zone under the pointer, once the window has a surface.
    pub zone: Option<ResizeZone>,
    /// Another window button is under the pointer.
    pub controls_changed: bool,
    /// The pointer is far from the tab strip.
    pub beyond_strip: bool,
    /// The row of the tab menu under the pointer.
    pub tab_menu_row: Option<usize>,
    /// The row of the context menu under the pointer.
    pub menu_row: Option<usize>,
}

/// What a motion of the pointer asks for.
#[derive(Debug, Clone, Copy, PartialEq, Eq, Structural)]
pub struct MoveAsk {
    /// The button to report to the program, if the motion is reported.
    pub report: Option<u8>,
    /// Scroll to where the pointer holds the scroll bar.
    pub scroll: bool,
    /// Extend the text selection to the pointer.
    pub extend: bool,
    /// Look for a link under the pointer.
    pub relink: bool,
}

impl Stage {
    /// The button that a motion reports: drags with the button down where the
    /// program asked for drags, every motion where it asked for all; never
    /// while text is being selected.
    pub open spec fn motion_report(self, m: PointerMove, any_tabs: bool) -> Option<u8> {
        if !self.pointer.selecting && any_tabs && m.cell_changed && (m.wants_motion || (m.wants_drag
            && self.pointer.grabbed)) {
            Some(
                if self.pointer.grabbed {
                    0u8
                } else {
                    3u8
                },
            )
        } else {
            None
        }
    }

    /// The pointer's shape follows the edges, except while a drag holds it; a
    /// modal overlay has no edges.
    #[verifier::opaque]
    pub open spec fn edged(self, m: PointerMove) -> Stage {
        if self.pointer_free() {
            match m.zone {
                Some(z) if z != self.pointer.resize_cursor => Stage {
                    pointer: Pointer { resize_cursor: z, ..self.pointer },
                    due: Due {
                        cursor: if self.presence.main_window is Some {
                            Some(shape_at(z, self.pointer.link_hover))
                        } else {
                            self.due.cursor
                        },
                        ..self.due
                    },
                    ..self
                },
                _ => self,
            }
        } else if self.modal() && self.pointer.resize_cursor != ResizeZone::Interior {
            Stage {
                pointer: Pointer { resize_cursor: ResizeZone::Interior, ..self.pointer },
                due: Due {
                    cursor: if self.presence.main_window is Some {
                        Some(CursorIcon::Default)
                    } else {
                        self.due.cursor
                    },
                    ..self.due
                },
                ..self
            }
        } else {
            self
        }
    }

    fn edge(self, m: PointerMove) -> (r: Stage)
        ensures
            r == self.edged(m),
    {
        proof {
            reveal(Stage::edged);
        }
        let modal: bool = self.modal_open();
        let free: bool = !self.pointer.selecting && !self.pointer.dragging_scrollbar
            && self.pointer.tab_drag.is_none() && !modal;
        let exists: bool = self.presence.main_window.is_some();
        if free {
            match m.zone {
                Some(z) => {
                    if z == self.pointer.resize_cursor {
                        return self;
                    }
                    let cursor: Option<CursorIcon> = if exists {
                        Some(desired_cursor(z, self.pointer.link_hover))
                    } else {
                        self.due.cursor
                    };
                    Stage {
                        pointer: Pointer { resize_cursor: z, ..self.pointer },
                        due: Due { cursor, ..self.due },
                        ..self
                    }
                },
                None => self,
            }
        } else if modal && self.pointer.resize_cursor != ResizeZone::Interior {
            let cursor: Option<CursorIcon> = if exists {
                Some(CursorIcon::Default)
            } else {
                self.due.cursor
            };
            Stage {
                pointer: Pointer { resize_cursor: ResizeZone::Interior, ..self.pointer },
                due: Due { cursor, ..self.due },
                ..self
            }
        } else {
            self
        }
    }

    /// A repaint is asked for where `wanted`.
    #[verifier::opaque]
    pub open spec fn painted_if(self, wanted: bool) -> Stage {
        Stage { due: Due { paint_main: self.due.paint_main || wanted, ..self.due }, ..self }
    }

    fn paint_if(self, wanted: bool) -> (r: Stage)
        ensures
            r == self.painted_if(wanted),
    {
        proof {
            reveal(Stage::painted_if);
        }
        Stage { due: Due { paint_main: self.due.paint_main || wanted, ..self.due }, ..self }
    }

    /// A held tab begins to tear off far from the strip, where another tab
    /// stays behind, and is a plain click again back at it.
    #[verifier::opaque]
    pub open spec fn torn(self, beyond: bool, tabs: nat) -> Stage {
        let tearing = beyond && tabs >= 2;
        match self.pointer.tab_drag {
            Some(d) if d.tearing != tearing => Stage {
                pointer: Pointer {
                    tab_drag: Some(TabDrag { idx: d.idx, tearing }),
                    ..self.pointer
                },
                due: Due {
                    cursor: if self.presence.main_window is Some {
                        Some(
                            if tearing {
                                CursorIcon::Grabbing
                            } else {
                                CursorIcon::Default
                            },
                        )
                    } else {
                        self.due.cursor
                    },
                    ..self.due
                },
                ..self
            },
            _ => self,
        }
    }

    fn tear(self, beyond: bool, tabs: usize) -> (r: Stage)
        ensures
            r == self.torn(beyond, tabs as nat),
    {
        proof {
            reveal(Stage::torn);
        }
        let tearing: bool = beyond && tabs >= 2;
        match self.pointer.tab_drag {
            Some(d) => {
                if d.tearing == tearing {
                    return self;
                }
                let cursor: Option<CursorIcon> = if self.presence.main_window.is_none() {
                    self.due.cursor
                } else if tearing {
                    Some(CursorIcon::Grabbing)
                } else {
                    Some(CursorIcon::Default)
                };
                Stage {
                    pointer: Pointer {
                        tab_drag: Some(TabDrag { idx: d.idx, tearing }),
                        ..self.pointer
                    },
                    due: Due { cursor, ..self.due },
                    ..self
                }
            },
            None => self,
        }
    }

    /// The rows under the pointer are the highlighted ones of the open menus.
    #[verifier::opaque]
    pub open spec fn menus_hovered(self, m: PointerMove) -> Stage {
        let tab = self.ui.tab_menu is Some && m.tab_menu_row != self.ui.tab_menu_hover;
        let ctx = self.ui.context_menu && m.menu_row != self.ui.menu_hover;
        (Stage {
            ui: Overlays {
                tab_menu_hover: if tab {
                    m.tab_menu_row
                } else {
                    self.ui.tab_menu_hover
                },
                menu_hover: if ctx {
                    m.menu_row
                } else {
                    self.ui.menu_hover
                },
                ..self.ui
            },
            ..self
        }).painted_if(tab || ctx)
    }

    fn hover_menus(self, m: PointerMove) -> (r: Stage)
        ensures
            r == self.menus_hovered(m),
    {
        proof {
            reveal(Stage::menus_hovered);
            reveal(Stage::painted_if);
        }
        let tab: bool = self.ui.tab_menu.is_some() && !same_row(
            m.tab_menu_row,
            self.ui.tab_menu_hover,
        );
        let ctx: bool = self.ui.context_menu && !same_row(m.menu_row, self.ui.menu_hover);
        let tab_menu_hover: Option<usize> = if tab {
            m.tab_menu_row
        } else {
            self.ui.tab_menu_hover
        };
        let menu_hover: Option<usize> = if ctx {
            m.menu_row
        } else {
            self.ui.menu_hover
        };
        (Stage { ui: Overlays { tab_menu_hover, menu_hover, ..self.ui }, ..self }).paint_if(
            tab || ctx,
        )
    }

    /// The pointer moved. Before the window has a surface, a held scroll bar
    /// leaves the rest alone.
    #[verifier::opaque]
    pub open spec fn moved(self, m: PointerMove, tabs: nat) -> Stage {
        let s = self.edged(m).painted_if(m.controls_changed);
        if self.pointer.dragging_scrollbar && m.zone is None {
            s
        } else {
            s.painted_if(
                self.pointer.dragging_scrollbar || (self.pointer.selecting && m.cell_known),
            ).torn(m.beyond_strip, tabs).menus_hovered(m)
        }
    }

    /// What a motion of the pointer asks for.
    pub open spec fn move_ask(self, m: PointerMove, any_tabs: bool) -> MoveAsk {
        let stuck = self.pointer.dragging_scrollbar && m.zone is None;
        MoveAsk {
            report: self.motion_report(m, any_tabs),
            scroll: self.pointer.dragging_scrollbar && !stuck,
            extend: self.pointer.selecting && m.cell_known && !stuck,
            relink: !stuck,
        }
    }

    fn do_move(self, m: PointerMove, tabs: usize) -> (r: Stage)
        ensures
            r == self.moved(m, tabs as nat),
    {
        reveal(Stage::moved);
        let s: Stage = self.edge(m).paint_if(m.controls_changed);
        if self.pointer.dragging_scrollbar && m.zone.is_none() {
            return s;
        }
        s.paint_if(
            self.pointer.dragging_scrollbar || (self.pointer.selecting && m.cell_known),
        ).tear(m.beyond_strip, tabs).hover_menus(m)
    }

    fn ask_move(self, m: PointerMove, any_tabs: bool) -> (r: MoveAsk)
        ensures
            r == self.move_ask(m, any_tabs),
    {
        let stuck: bool = self.pointer.dragging_scrollbar && m.zone.is_none();
        let reported: bool = !self.pointer.selecting && any_tabs && m.cell_changed && (
        m.wants_motion || (m.wants_drag && self.pointer.grabbed));
        let report: Option<u8> = if !reported {
            None
        } else if self.pointer.grabbed {
            Some(0)
        } else {
            Some(3)
        };
        MoveAsk {
            report,
            scroll: self.pointer.dragging_scrollbar && !stuck,
            extend: self.pointer.selecting && m.cell_known && !stuck,
            relink: !stuck,
        }
    }
}

fn same_row(a: Option<usize>, b: Option<usize>) -> (r: bool)
    ensures
        r == (a == b),
{
    match (a, b) {
        (Some(x), Some(y)) => x == y,
        (None, None) => true,
        _ => false,
    }
}

proof fn lemma_edged_narrow(s: Stage, m: PointerMove)
    ensures
        s.narrows_to(s.edged(m)),
{
    reveal(Stage::edged);
    let t = s.edged(m);
    assert(t.ui == s.ui);
    assert(t.pointer.tab_drag == s.pointer.tab_drag);
    assert(t.due.exit == s.due.exit);
    lemma_narrow(s, t);
}

proof fn lemma_painted_narrow(s: Stage, wanted: bool)
    ensures
        s.narrows_to(s.painted_if(wanted)),
{
    reveal(Stage::painted_if);
    lemma_narrow(s, s.painted_if(wanted));
}

proof fn lemma_torn_narrow(s: Stage, beyond: bool, tabs: nat)
    ensures
        s.narrows_to(s.torn(beyond, tabs)),
{
    reveal(Stage::torn);
    lemma_narrow(s, s.torn(beyond, tabs));
}

proof fn lemma_menus_narrow(s: Stage, m: PointerMove)
    ensures
        s.narrows_to(s.menus_hovered(m)),
{
    reveal(Stage::menus_hovered);
    reveal(Stage::painted_if);
    lemma_narrow(s, s.menus_hovered(m));
}

proof fn lemma_moved_narrow(s: Stage, m: PointerMove, tabs: nat)
    ensures
        s.narrows_to(s.moved(m, tabs)),
{
    reveal(Stage::moved);
    let a = s.edged(m);
    let b = a.painted_if(m.controls_changed);
    let c = b.painted_if(
        s.pointer.dragging_scrollbar || (s.pointer.selecting && m.cell_known),
    );
    let d = c.torn(m.beyond_strip, tabs);
    lemma_edged_narrow(s, m);
    lemma_painted_narrow(a, m.controls_changed);
    lemma_narrow_trans(s, a, b);
    lemma_painted_narrow(
        b,
        s.pointer.dragging_scrollbar || (s.pointer.selecting && m.cell_known),
    );
    lemma_narrow_trans(s, b, c);
    lemma_torn_narrow(c, m.beyond_strip, tabs);
    lemma_narrow_trans(s, c, d);
    lemma_menus_narrow(d, m);
    lemma_narrow_trans(s, d, d.menus_hovered(m));
}

impl App {
    /// The pointer moved in the main window.
    pub fn pointer_moved(&mut self, m: PointerMove) -> (r: MoveAsk)
        requires
            old(self)@.wf(),
        ensures
            final(self)@ == (AppView {
                st: old(self)@.st.moved(m, old(self)@.tabs.len()),
                ..old(self)@
            }),
            r == old(self)@.st.move_ask(m, old(self)@.tabs.len() > 0),
            final(self)@.wf(),
    {
        proof {
            lemma_moved_narrow(self@.st, m, self@.tabs.len());
            lemma_wf_narrow(self@, self@.st.moved(m, self@.tabs.len()));
        }
        let n: usize = self.tabs.len();
        let ask: MoveAsk = self.st.ask_move(m, n > 0);
        self.st = self.st.do_move(m, n);
        ask
    }
}

/// A motion is told to a program only where the program asked for it.
pub proof fn law_motion_only_on_request(s: Stage, m: PointerMove, any_tabs: bool)
    requires
        !m.wants_drag,
        !m.wants_motion,
    ensures
        s.motion_report(m, any_tabs) is None,
{
}

/// While text is being selected no motion is told to a program.
pub proof fn law_selecting_reports_nothing(s: Stage, m: PointerMove, any_tabs: bool)
    requires
        s.pointer.selecting,
    ensures
        s.motion_report(m, any_tabs) is None,
{
}

/// A program is told of the motion that it asked for, once per cell: of a held
/// button as the left one, of a free pointer as none.
pub proof fn law_motion_is_reported(s: Stage, m: PointerMove)
    ensures
        ({
            let r = s.motion_report(m, true);
            let wanted = m.wants_motion || (m.wants_drag && s.pointer.grabbed);
            &&& !s.pointer.selecting && m.cell_changed && wanted && s.pointer.grabbed ==> r == Some(
                0u8,
            )
            &&& !s.pointer.selecting && m.cell_changed && wanted && !s.pointer.grabbed ==> r
                == Some(3u8)
            &&& !m.cell_changed || !wanted ==> r is None
            &&& s.motion_report(m, false) is None
        }),
{
}

/// A tab pulled off the strip tears where others stay behind, and no longer
/// where it is pulled back; the pointer shows it.
pub proof fn law_tab_tears(s: Stage, beyond: bool, tabs: nat)
    requires
        s.pointer.tab_drag is Some,
    ensures
        ({
            let was = s.pointer.tab_drag->0;
            let after = s.torn(beyond, tabs);
            let tears = beyond && tabs >= 2;
            &&& after.pointer.tab_drag == Some(TabDrag { idx: was.idx, tearing: tears })
            &&& was.tearing != tears && s.presence.main_window is Some ==> after.due.cursor == Some(
                if tears {
                    CursorIcon::Grabbing
                } else {
                    CursorIcon::Default
                },
            )
            &&& was.tearing == tears ==> after == s
        }),
{
    reveal(Stage::torn);
}

/// The row of an open menu under the pointer is the one that is lit, and that
/// shows.
pub proof fn law_menu_rows_light_up(s: Stage, m: PointerMove)
    ensures
        ({
            let after = s.menus_hovered(m);
            &&& s.ui.tab_menu is Some ==> after.ui.tab_menu_hover == m.tab_menu_row
            &&& s.ui.tab_menu is None ==> after.ui.tab_menu_hover == s.ui.tab_menu_hover
            &&& s.ui.context_menu ==> after.ui.menu_hover == m.menu_row
            &&& !s.ui.context_menu ==> after.ui.menu_hover == s.ui.menu_hover
            &&& after.ui.tab_menu_hover != s.ui.tab_menu_hover || after.ui.menu_hover
                != s.ui.menu_hover ==> after.due.paint_main
            &&& s.due.paint_main ==> after.due.paint_main
        }),
{
    reveal(Stage::menus_hovered);
    reveal(Stage::painted_if);
}

/// Over an edge the pointer shows how it resizes the window, unless something
/// is dragged or open; over something open it does not.
pub proof fn law_edges_show(s: Stage, m: PointerMove, z: ResizeZone)
    requires
        m.zone == Some(z),
        s.presence.main_window is Some,
    ensures
        ({
            let held = s.pointer.selecting || s.pointer.dragging_scrollbar || s.pointer.tab_drag
                is Some;
            let open = s.ui.confirm_quit || s.ui.confirm_close is Some || s.ui.help_open
                || s.ui.context_menu || s.ui.tab_menu is Some;
            let after = s.edged(m);
            &&& !held && !open ==> after.pointer.resize_cursor == z
            &&& !held && !open && z != s.pointer.resize_cursor && z != ResizeZone::Interior
                ==> after.due.cursor == Some(z.icon())
            &&& !held && !open && z != s.pointer.resize_cursor && z == ResizeZone::Interior
                ==> after.due.cursor == Some(
                if s.pointer.link_hover {
                    CursorIcon::Pointer
                } else {
                    CursorIcon::Default
                },
            )
            &&& open ==> after.pointer.resize_cursor == ResizeZone::Interior
            &&& held && !open ==> after == s
        }),
{
    reveal(Stage::edged);
}

/// A held scroll bar scrolls, a selection grows, and links are looked for,
/// while there is a window to measure in; each is shown.
pub proof fn law_drags_go_on(s: Stage, m: PointerMove, any: bool, tabs: nat)
    requires
        m.zone is Some,
    ensures
        s.move_ask(m, any).scroll == s.pointer.dragging_scrollbar,
        s.move_ask(m, any).extend == (s.pointer.selecting && m.cell_known),
        s.move_ask(m, any).relink,
        s.pointer.dragging_scrollbar || (s.pointer.selecting && m.cell_known) || m.controls_changed
            ==> s.moved(m, tabs).due.paint_main,
        s.moved(m, tabs).pointer.selecting == s.pointer.selecting,
        s.moved(m, tabs).pointer.dragging_scrollbar == s.pointer.dragging_scrollbar,
{
    reveal(Stage::moved);
    reveal(Stage::painted_if);
    reveal(Stage::edged);
    reveal(Stage::torn);
    reveal(Stage::menus_hovered);
}

} // verus!
