//! Links under the pointer: when a terminal is asked for one, and what the
//! answer changes.

use vstd::prelude::*;

use crate::state::{
    detached_views, map_uis, App, AppView, Detached, DetachedUi, DetachedView, Due, Pointer, Stage,
};
use crate::tabs::{lemma_narrow, lemma_wf_frame, lemma_wf_narrow};
use crate::zone::{CursorIcon, ResizeZone};

verus! {

/// Where the pointer stands in a window.
#[derive(Debug, Clone, Copy)]
pub struct Spot {
    /// The modifier that makes links clickable is held.
    pub held: bool,
    /// The pointer is over the grid, between the bars.
    pub over_grid: bool,
    /// The cell under the pointer, once the font is measured.
    pub cell: Option<(usize, usize)>,
}

/// What looking for a link comes to.
#[derive(Debug, Clone, Copy, PartialEq, Eq, Structural)]
pub enum LinkStep {
    /// No link can be hovered here.
    Clear,
    /// The cell was looked at already, or is not known.
    Keep,
    /// Ask the terminal about this cell.
    Scan(usize, usize),
}

/// The pointer shape over a zone; the hand of a hovered link wins over the
/// plain arrow, the arrows of an edge win over both.
pub open spec fn shape_at(zone: ResizeZone, link: bool) -> CursorIcon {
    if zone == ResizeZone::Interior && link {
        CursorIcon::Pointer
    } else {
        zone.icon()
    }
}

/// The pointer shape over a zone.
pub fn desired_cursor(zone: ResizeZone, link: bool) -> (r: CursorIcon)
    ensures
        r == shape_at(zone, link),
{
    if zone == ResizeZone::Interior && link {
        CursorIcon::Pointer
    } else {
        zone.cursor_icon()
    }
}

/// What looking for a link comes to at `spot`, where `free` tells that nothing
/// else has the pointer and `seen` is the cell looked at last. `force` looks
/// again though the cell is the same.
pub open spec fn next_step(
    free: bool,
    seen: Option<(usize, usize)>,
    spot: Spot,
    force: bool,
) -> LinkStep {
    if !(spot.held && free && spot.over_grid) {
        LinkStep::Clear
    } else if spot.cell is None || (!force && seen == spot.cell) {
        LinkStep::Keep
    } else {
        LinkStep::Scan((spot.cell->0).0, (spot.cell->0).1)
    }
}

fn find_step(free: bool, seen: Option<(usize, usize)>, spot: Spot, force: bool) -> (r: LinkStep)
    ensures
        r == next_step(free, seen, spot, force),
{
    if !(spot.held && free && spot.over_grid) {
        return LinkStep::Clear;
    }
    match spot.cell {
        None => LinkStep::Keep,
        Some((row, col)) => {
            let same: bool = match seen {
                Some((r, c)) => r == row && c == col,
                None => false,
            };
            if !force && same {
                LinkStep::Keep
            } else {
                LinkStep::Scan(row, col)
            }
        },
    }
}

impl Stage {
    /// A popup, the help text or a menu lies over the main window's grid.
    pub open spec fn modal(self) -> bool {
        ||| self.ui.confirm_quit
        ||| self.ui.confirm_close is Some
        ||| self.ui.help_open
        ||| self.ui.context_menu
        ||| self.ui.tab_menu is Some
    }

    /// Whether a popup, the help text or a menu lies over the grid.
    pub fn modal_open(self) -> (r: bool)
        ensures
            r == self.modal(),
    {
        self.ui.confirm_quit || self.ui.confirm_close.is_some() || self.ui.help_open
            || self.ui.context_menu || self.ui.tab_menu.is_some()
    }

    /// Nothing else has the pointer in the main window.
    pub open spec fn pointer_free(self) -> bool {
        !self.pointer.selecting && !self.pointer.dragging_scrollbar && self.pointer.tab_drag
            is None && !self.modal()
    }

    /// What looking for a link comes to in the main window.
    pub open spec fn link_step(self, any_tabs: bool, spot: Spot, force: bool) -> LinkStep {
        next_step(any_tabs && self.pointer_free(), self.pointer.link_cell, spot, force)
    }

    /// No link is hovered in the main window.
    pub open spec fn unlinked(self) -> Stage {
        let shows = self.pointer.link_hover && self.presence.main_window is Some;
        Stage {
            pointer: Pointer { link_cell: None, link_hover: false, ..self.pointer },
            due: Due {
                cursor: if shows {
                    Some(self.pointer.resize_cursor.icon())
                } else {
                    self.due.cursor
                },
                paint_main: self.due.paint_main || shows,
                ..self.due
            },
            ..self
        }
    }

    /// Takes the hovered link of the main window away.
    pub fn unlink(self) -> (r: Stage)
        ensures
            r == self.unlinked(),
    {
        let shows: bool = self.pointer.link_hover && self.presence.main_window.is_some();
        let cursor: Option<CursorIcon> = if shows {
            Some(self.pointer.resize_cursor.cursor_icon())
        } else {
            self.due.cursor
        };
        Stage {
            pointer: Pointer { link_cell: None, link_hover: false, ..self.pointer },
            due: Due { cursor, paint_main: self.due.paint_main || shows, ..self.due },
            ..self
        }
    }

    /// The terminal told whether the cell holds a link.
    pub open spec fn linked(self, row: usize, col: usize, found: bool) -> Stage {
        let was = self.pointer.link_hover;
        let exists = self.presence.main_window is Some;
        Stage {
            pointer: Pointer { link_cell: Some((row, col)), link_hover: found, ..self.pointer },
            due: Due {
                cursor: if exists && was != found {
                    Some(shape_at(self.pointer.resize_cursor, found))
                } else {
                    self.due.cursor
                },
                paint_main: self.due.paint_main || (exists && (was || found)),
                ..self.due
            },
            ..self
        }
    }

    /// Takes the terminal's answer about the cell under the main window's
    /// pointer.
    pub fn link_scanned(self, row: usize, col: usize, found: bool) -> (r: Stage)
        ensures
            r == self.linked(row, col, found),
    {
        let was: bool = self.pointer.link_hover;
        let exists: bool = self.presence.main_window.is_some();
        let cursor: Option<CursorIcon> = if exists && was != found {
            Some(desired_cursor(self.pointer.resize_cursor, found))
        } else {
            self.due.cursor
        };
        Stage {
            pointer: Pointer { link_cell: Some((row, col)), link_hover: found, ..self.pointer },
            due: Due {
                cursor,
                paint_main: self.due.paint_main || (exists && (was || found)),
                ..self.due
            },
            ..self
        }
    }
}

impl DetachedUi {
    /// Nothing else has the pointer in the detached window.
    pub open spec fn pointer_free(self) -> bool {
        !self.selecting && !self.dragging_scrollbar && !self.bar_drag && !self.menu_open
    }

    /// What looking for a link comes to in the detached window.
    pub open spec fn link_step(self, spot: Spot, force: bool) -> LinkStep {
        next_step(self.pointer_free(), self.link_cell, spot, force)
    }

    /// No link is hovered in the detached window.
    pub open spec fn unlinked(self) -> DetachedUi {
        DetachedUi {
            link_cell: None,
            link_hover: false,
            cursor: if self.link_hover {
                Some(self.resize_zone.icon())
            } else {
                self.cursor
            },
            paint: self.paint || self.link_hover,
            ..self
        }
    }

    pub(crate) fn unlink(self) -> (r: DetachedUi)
        ensures
            r == self.unlinked(),
    {
        let cursor: Option<CursorIcon> = if self.link_hover {
            Some(self.resize_zone.cursor_icon())
        } else {
            self.cursor
        };
        DetachedUi {
            link_cell: None,
            link_hover: false,
            cursor,
            paint: self.paint || self.link_hover,
            ..self
        }
    }

    /// The terminal told whether the cell holds a link.
    pub open spec fn linked(self, row: usize, col: usize, found: bool) -> DetachedUi {
        DetachedUi {
            link_cell: Some((row, col)),
            link_hover: found,
            cursor: if self.link_hover != found {
                Some(shape_at(self.resize_zone, found))
            } else {
                self.cursor
            },
            paint: self.paint || self.link_hover || found,
            ..self
        }
    }

    /// Takes the terminal's answer about the cell under the detached window's
    /// pointer.
    pub fn link_scanned(self, row: usize, col: usize, found: bool) -> (r: DetachedUi)
        ensures
            r == self.linked(row, col, found),
    {
        let cursor: Option<CursorIcon> = if self.link_hover != found {
            Some(desired_cursor(self.resize_zone, found))
        } else {
            self.cursor
        };
        DetachedUi {
            link_cell: Some((row, col)),
            link_hover: found,
            cursor,
            paint: self.paint || self.link_hover || found,
            ..self
        }
    }

    /// Looks for a link under the detached window's pointer.
    pub fn update_link_hover(self, spot: Spot, force: bool) -> (r: (DetachedUi, LinkStep))
        ensures
            r.1 == self.link_step(spot, force),
            r.0 == if r.1 is Clear {
                self.unlinked()
            } else {
                self
            },
    {
        let free: bool = !self.selecting && !self.dragging_scrollbar && !self.bar_drag
            && !self.menu_open;
        let step: LinkStep = find_step(free, self.link_cell, spot, force);
        if let LinkStep::Clear = step {
            (self.unlink(), step)
        } else {
            (self, step)
        }
    }
}

fn unlink_windows(list: &mut Vec<Detached>)
    ensures
        detached_views(final(list)@) == Seq::new(
            old(list)@.len(),
            |i: int|
                DetachedView {
                    ui: detached_views(old(list)@)[i].ui.unlinked(),
                    ..detached_views(old(list)@)[i]
                },
        ),
{
    let ghost v = detached_views(list@);
    let f = |_i: usize, ui: DetachedUi| -> (r: DetachedUi)
        ensures
            r == ui.unlinked(),
    {
        ui.unlink()
    };
    map_uis(list, f);
    assert(detached_views(list@) =~= Seq::new(
        v.len(),
        |i: int| DetachedView { ui: v[i].ui.unlinked(), ..v[i] },
    ));
}

impl AppView {
    /// No link is hovered in any window.
    pub open spec fn all_unlinked(self) -> AppView {
        AppView {
            st: self.st.unlinked(),
            detached: Seq::new(
                self.detached.len(),
                |i: int| DetachedView { ui: self.detached[i].ui.unlinked(), ..self.detached[i] },
            ),
            ..self
        }
    }

    /// The modifiers changed: with the link modifier held the link under the
    /// pointer is looked for, else no window keeps one.
    pub open spec fn modifiers(self, held: bool) -> AppView {
        if held {
            AppView { st: Stage { due: Due { relink: true, ..self.st.due }, ..self.st }, ..self }
        } else {
            self.all_unlinked()
        }
    }
}

impl App {
    /// Looks for a link under the main window's pointer.
    pub fn update_link_hover(&mut self, spot: Spot, force: bool) -> (r: LinkStep)
        requires
            old(self)@.wf(),
        ensures
            r == old(self)@.st.link_step(old(self)@.tabs.len() > 0, spot, force),
            final(self)@ == if r is Clear {
                AppView { st: old(self)@.st.unlinked(), ..old(self)@ }
            } else {
                old(self)@
            },
            final(self)@.wf(),
    {
        let free: bool = self.tabs.len() > 0 && !self.st.pointer.selecting
            && !self.st.pointer.dragging_scrollbar && self.st.pointer.tab_drag.is_none()
            && !self.st.modal_open();
        let step: LinkStep = find_step(free, self.st.pointer.link_cell, spot, force);
        if let LinkStep::Clear = step {
            proof {
                lemma_narrow(self@.st, self@.st.unlinked());
                lemma_wf_narrow(self@, self@.st.unlinked());
            }
            self.st = self.st.unlink();
        }
        step
    }

    /// Takes the hovered links of all windows away.
    pub fn clear_all_link_hovers(&mut self)
        requires
            old(self)@.wf(),
        ensures
            final(self)@ == old(self)@.all_unlinked(),
            final(self)@.wf(),
    {
        proof {
            lemma_all_unlinked_wf(self@);
        }
        self.st = self.st.unlink();
        unlink_windows(&mut self.detached);
    }

    /// The keyboard's modifiers changed.
    pub fn modifiers_changed(&mut self, held: bool)
        requires
            old(self)@.wf(),
        ensures
            final(self)@ == old(self)@.modifiers(held),
            final(self)@.wf(),
    {
        if held {
            self.st = Stage { due: Due { relink: true, ..self.st.due }, ..self.st };
        } else {
            self.clear_all_link_hovers();
        }
    }
}

proof fn lemma_all_unlinked_wf(v: AppView)
    requires
        v.wf(),
    ensures
        v.all_unlinked().wf(),
{
    reveal(Stage::same_indices);
    let w = v.all_unlinked();
    assert(w.st.ui == v.st.ui && w.st.pointer.tab_drag == v.st.pointer.tab_drag);
    assert(w.st.due.exit == v.st.due.exit);
    lemma_wf_frame(v, w);
}

/// Releasing the link modifier leaves no hovered link in any window, focused
/// or not.
pub proof fn law_release_clears_every_link(v: AppView, i: int)
    ensures
        !v.modifiers(false).st.pointer.link_hover,
        0 <= i < v.detached.len() ==> !v.modifiers(false).detached[i].ui.link_hover,
{
}

/// A still pointer costs no look at the terminal: a cell that was looked at is
/// not looked at again unless what it shows moved.
pub proof fn law_same_cell_is_not_scanned(s: Stage, any_tabs: bool, spot: Spot)
    requires
        spot.cell is Some,
        s.pointer.link_cell == spot.cell,
    ensures
        s.link_step(any_tabs, spot, false) !is Scan,
{
}

/// Without the link modifier no terminal is looked at.
pub proof fn law_no_scan_without_modifier(s: Stage, any_tabs: bool, spot: Spot, force: bool)
    requires
        !spot.held,
    ensures
        s.link_step(any_tabs, spot, force) is Clear,
{
}

/// A link is looked for in the cell under the pointer while the modifier is
/// held over the grid and nothing is dragged or open.
pub proof fn law_links_are_looked_for(s: Stage, spot: Spot, cell: (usize, usize), force: bool)
    requires
        spot.held,
        spot.over_grid,
        spot.cell == Some(cell),
        !s.pointer.selecting && !s.pointer.dragging_scrollbar && s.pointer.tab_drag is None,
        !s.ui.confirm_quit && s.ui.confirm_close is None && !s.ui.help_open && !s.ui.context_menu
            && s.ui.tab_menu is None,
    ensures
        force || s.pointer.link_cell != Some(cell) ==> s.link_step(true, spot, force)
            == LinkStep::Scan(cell.0, cell.1),
        s.link_step(false, spot, force) is Clear,
{
}

/// And not while something is dragged or open, nor beside the grid.
pub proof fn law_links_are_let_go(s: Stage, any: bool, spot: Spot, force: bool)
    ensures
        s.pointer.selecting || s.pointer.dragging_scrollbar || s.pointer.tab_drag is Some
            || s.ui.confirm_quit || s.ui.confirm_close is Some || s.ui.help_open
            || s.ui.context_menu || s.ui.tab_menu is Some || !spot.over_grid ==> s.link_step(
            any,
            spot,
            force,
        ) is Clear,
{
}

/// A link that is found is lit and gives the pointer its hand; one that is gone
/// gives the pointer its shape back; either shows.
pub proof fn law_links_light_up(s: Stage, row: usize, col: usize, found: bool)
    requires
        s.presence.main_window is Some,
    ensures
        ({
            let l = s.linked(row, col, found);
            let u = s.unlinked();
            &&& l.pointer.link_hover == found && l.pointer.link_cell == Some((row, col))
            &&& found && !s.pointer.link_hover && s.pointer.resize_cursor == ResizeZone::Interior
                ==> l.due.cursor == Some(CursorIcon::Pointer)
            &&& !found && s.pointer.link_hover && s.pointer.resize_cursor == ResizeZone::Interior
                ==> l.due.cursor == Some(CursorIcon::Default)
            &&& found || s.pointer.link_hover ==> l.due.paint_main
            &&& !found && !s.pointer.link_hover ==> l.due == s.due
            &&& !u.pointer.link_hover && u.pointer.link_cell is None
            &&& s.pointer.link_hover ==> u.due.paint_main
            &&& s.pointer.link_hover && s.pointer.resize_cursor == ResizeZone::Interior
                ==> u.due.cursor == Some(CursorIcon::Default)
            &&& !s.pointer.link_hover ==> u.due == s.due
        }),
{
}

/// The same in a detached window.
pub proof fn law_window_links_light_up(ui: DetachedUi, row: usize, col: usize, found: bool)
    ensures
        ({
            let l = ui.linked(row, col, found);
            let u = ui.unlinked();
            &&& l.link_hover == found && l.link_cell == Some((row, col))
            &&& found && !ui.link_hover && ui.resize_zone == ResizeZone::Interior ==> l.cursor
                == Some(CursorIcon::Pointer)
            &&& found || ui.link_hover ==> l.paint
            &&& !found && !ui.link_hover ==> l.paint == ui.paint && l.cursor == ui.cursor
            &&& !u.link_hover && u.link_cell is None
            &&& ui.link_hover ==> u.paint
            &&& ui.link_hover && ui.resize_zone == ResizeZone::Interior ==> u.cursor == Some(
                CursorIcon::Default,
            )
            &&& !ui.link_hover ==> u.paint == ui.paint && u.cursor == ui.cursor
        }),
{
}

/// A detached window looks for links under the same conditions.
pub proof fn law_window_links_are_looked_for(
    ui: DetachedUi,
    spot: Spot,
    cell: (usize, usize),
    force: bool,
)
    requires
        spot.cell == Some(cell),
    ensures
        ({
            let free = !ui.selecting && !ui.dragging_scrollbar && !ui.bar_drag && !ui.menu_open;
            let step = ui.link_step(spot, force);
            &&& !free || !spot.held || !spot.over_grid ==> step is Clear
            &&& free && spot.held && spot.over_grid && (force || ui.link_cell != Some(cell))
                ==> step == LinkStep::Scan(cell.0, cell.1)
            &&& free && spot.held && spot.over_grid && !force && ui.link_cell == Some(cell)
                ==> step is Keep
        }),
{
}

/// Pressing the modifier has links looked for, and takes none away.
pub proof fn law_modifier_looks_for_links(v: AppView)
    ensures
        v.modifiers(true).st.due.relink,
        v.modifiers(true).st.pointer == v.st.pointer,
        v.modifiers(true).detached == v.detached,
        v.modifiers(false).tabs == v.tabs,
{
}

/// The pointer is a hand over a link, and over an edge shows the edge.
pub proof fn law_pointer_shape(zone: ResizeZone)
    ensures
        shape_at(ResizeZone::Interior, true) == CursorIcon::Pointer,
        shape_at(ResizeZone::Interior, false) == CursorIcon::Default,
        zone != ResizeZone::Interior ==> shape_at(zone, true) == shape_at(zone, false),
        shape_at(ResizeZone::West, true) == CursorIcon::EwResize,
        shape_at(ResizeZone::South, true) == CursorIcon::NsResize,
{
}

} // verus!
