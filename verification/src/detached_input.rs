//! Keys and the pointer in the detached windows.

use vstd::prelude::*;

use crate::bytes::{is_printable_keystroke, printable};
use crate::buttons::Wheel;
use crate::input::{Ask, AskView, Decision, DecisionView, KeyAction, KeyPress, KeyView, MouseReport};
use crate::keys::resolve;
use crate::links::{desired_cursor, shape_at};
use crate::pointer::{SHIFT_HINT_COOLDOWN, SHIFT_HINT_SHOWN};
use crate::presence::{Env, LAST_INSTANT};
use crate::press::{grid_ask, GridPress, GridUse, DOUBLE_CLICK};
use crate::state::{App, AppView, DetachedUi, Pointer, Stage};
use crate::tabs::lemma_narrow;
use crate::zone::{CursorIcon, ResizeZone};

verus! {

/// What a motion of the pointer meets in a detached window.
#[derive(Debug, Clone, Copy)]
pub struct WindowMove {
    pub zone: ResizeZone,
    /// The pointer is over the cross in the title bar.
    pub over_close: bool,
    /// The row of the menu under the pointer.
    pub menu_row: Option<usize>,
    /// The font is measured, so that cells are known.
    pub cell_known: bool,
    pub wants_drag: bool,
    pub wants_motion: bool,
    pub cell_changed: bool,
}

/// What a motion of the pointer in a detached window asks for.
#[derive(Debug, Clone, Copy, PartialEq, Eq, Structural)]
pub struct WindowMoveAsk {
    /// Move the window along with the pointer.
    pub carry: bool,
    /// Scroll to where the pointer holds the scroll bar.
    pub scroll: bool,
    /// Extend the text selection to the pointer.
    pub extend: bool,
    /// The button to report to the program, if the motion is reported.
    pub report: Option<u8>,
    /// Look for a link under the pointer.
    pub relink: bool,
}

impl DetachedUi {
    /// The shape and the cross follow the pointer, except while text is
    /// selected.
    pub open spec fn traced(self, m: WindowMove) -> DetachedUi {
        if self.selecting {
            DetachedUi { paint: self.paint || m.cell_known, ..self }
        } else {
            DetachedUi {
                resize_zone: m.zone,
                cursor: if m.zone != self.resize_zone {
                    Some(shape_at(m.zone, self.link_hover))
                } else {
                    self.cursor
                },
                close_hover: m.over_close,
                paint: self.paint || m.over_close != self.close_hover,
                ..self
            }
        }
    }

    /// The pointer moved in the window. A held title bar moves the window and
    /// an open menu has the pointer; a held scroll bar drops the hovered link,
    /// whose text moves away.
    pub open spec fn moved(self, m: WindowMove) -> DetachedUi {
        if self.bar_drag {
            self
        } else if self.menu_open {
            DetachedUi {
                menu_hover: m.menu_row,
                paint: self.paint || m.menu_row != self.menu_hover,
                ..self
            }
        } else if self.dragging_scrollbar {
            DetachedUi { link_cell: None, link_hover: false, paint: true, ..self }
        } else {
            self.traced(m)
        }
    }

    /// What the motion asks for.
    pub open spec fn move_ask(self, m: WindowMove) -> WindowMoveAsk {
        let free = !self.bar_drag && !self.menu_open;
        let open = free && !self.dragging_scrollbar;
        let reported = open && m.cell_known && !self.selecting && m.cell_changed && (m.wants_motion
            || (m.wants_drag && self.grabbed));
        WindowMoveAsk {
            carry: self.bar_drag,
            scroll: free && self.dragging_scrollbar,
            extend: open && m.cell_known && self.selecting,
            report: if !reported {
                None
            } else if self.grabbed {
                Some(0u8)
            } else {
                Some(3u8)
            },
            relink: open,
        }
    }

    fn trace(self, m: WindowMove) -> (r: DetachedUi)
        ensures
            r == self.traced(m),
    {
        if self.selecting {
            return DetachedUi { paint: self.paint || m.cell_known, ..self };
        }
        let cursor: Option<CursorIcon> = if m.zone != self.resize_zone {
            Some(desired_cursor(m.zone, self.link_hover))
        } else {
            self.cursor
        };
        DetachedUi {
            resize_zone: m.zone,
            cursor,
            close_hover: m.over_close,
            paint: self.paint || m.over_close != self.close_hover,
            ..self
        }
    }

    /// The pointer moved in the window.
    pub fn pointer_moved(self, m: WindowMove) -> (r: (DetachedUi, WindowMoveAsk))
        ensures
            r.0 == self.moved(m),
            r.1 == self.move_ask(m),
    {
        let ask: WindowMoveAsk = self.ask_move(m);
        if self.bar_drag {
            (self, ask)
        } else if self.menu_open {
            let same: bool = match (m.menu_row, self.menu_hover) {
                (Some(a), Some(b)) => a == b,
                (None, None) => true,
                _ => false,
            };
            (DetachedUi { menu_hover: m.menu_row, paint: self.paint || !same, ..self }, ask)
        } else if self.dragging_scrollbar {
            (DetachedUi { link_cell: None, link_hover: false, paint: true, ..self }, ask)
        } else {
            (self.trace(m), ask)
        }
    }

    fn ask_move(self, m: WindowMove) -> (r: WindowMoveAsk)
        ensures
            r == self.move_ask(m),
    {
        let free: bool = !self.bar_drag && !self.menu_open;
        let open: bool = free && !self.dragging_scrollbar;
        let reported: bool = open && m.cell_known && !self.selecting && m.cell_changed && (
        m.wants_motion || (m.wants_drag && self.grabbed));
        let report: Option<u8> = if !reported {
            None
        } else if self.grabbed {
            Some(0)
        } else {
            Some(3)
        };
        WindowMoveAsk {
            carry: self.bar_drag,
            scroll: free && self.dragging_scrollbar,
            extend: open && m.cell_known && self.selecting,
            report,
            relink: open,
        }
    }
}

/// Where a press hits the title bar of a detached window.
#[derive(Debug, Clone, Copy, PartialEq, Eq, Structural)]
pub enum TitleHit {
    Close,
    Bar,
}

/// What a press of the left button meets in a detached window.
#[derive(Debug)]
pub struct WindowPress {
    /// The row of the menu under the pointer.
    pub menu_row: Option<usize>,
    pub zone: ResizeZone,
    /// What it hits in the title bar, if it is there.
    pub title: Option<TitleHit>,
    /// The last press on the title bar was at the same place.
    pub near: bool,
    /// The platform tells where the window is, so it can be moved by hand.
    pub movable: bool,
    /// The font is measured, so that cells are known.
    pub cell_known: bool,
    pub grid: GridPress,
}

/// What a press in a detached window comes to.
pub enum PressView {
    Ask(AskView),
    /// The tab goes back into the main window.
    Reattach,
}

enum PressResult {
    Ask(Ask),
    Reattach,
}

impl PressResult {
    spec fn view(self) -> PressView {
        match self {
            PressResult::Ask(a) => PressView::Ask(a@),
            PressResult::Reattach => PressView::Reattach,
        }
    }
}

impl DetachedUi {
    /// A press on the title bar now is the second of a double click.
    pub open spec fn doubles(self, near: bool, now: u64) -> bool {
        near && (self.last_bar_click matches Some(t) && now <= t + DOUBLE_CLICK)
    }

    fn is_double(self, near: bool, now: u64) -> (r: bool)
        ensures
            r == self.doubles(near, now),
    {
        match self.last_bar_click {
            Some(t) => near && (now <= t || now - t <= DOUBLE_CLICK),
            None => false,
        }
    }

    /// The title bar was pressed on.
    pub open spec fn bar_pressed(self, p: WindowPress, now: u64) -> DetachedUi {
        if self.doubles(p.near, now) {
            DetachedUi { last_bar_click: None, ..self }
        } else {
            DetachedUi { last_bar_click: Some(now), bar_drag: self.bar_drag || p.movable, ..self }
        }
    }

    /// What a press on the title bar asks for.
    pub open spec fn bar_ask(self, p: WindowPress, now: u64) -> AskView {
        if self.doubles(p.near, now) {
            AskView::ToggleMaximized
        } else if p.movable {
            AskView::Nothing
        } else {
            AskView::DragWindow
        }
    }

    /// A press over the grid is used like this.
    pub open spec fn grid_used(self, how: GridUse) -> DetachedUi {
        match how {
            GridUse::HoldThumb => DetachedUi { dragging_scrollbar: true, ..self },
            GridUse::JumpThumb => DetachedUi { dragging_scrollbar: true, paint: true, ..self },
            GridUse::Follow => self,
            GridUse::Report => DetachedUi { grabbed: true, ..self },
            GridUse::Select => DetachedUi { selecting: true, paint: true, ..self },
        }
    }

    fn use_grid(self, how: GridUse) -> (r: DetachedUi)
        ensures
            r == self.grid_used(how),
    {
        match how {
            GridUse::HoldThumb => DetachedUi { dragging_scrollbar: true, ..self },
            GridUse::JumpThumb => DetachedUi { dragging_scrollbar: true, paint: true, ..self },
            GridUse::Follow => self,
            GridUse::Report => DetachedUi { grabbed: true, ..self },
            GridUse::Select => DetachedUi { selecting: true, paint: true, ..self },
        }
    }

    /// A press over the grid has no effect: the scroll bar is not hit and no
    /// cell is known.
    pub open spec fn grid_dead(p: WindowPress) -> bool {
        !p.cell_known && p.grid@.purpose() !is HoldThumb && p.grid@.purpose() !is JumpThumb
    }

    /// The left button was pressed in the window.
    #[verifier::opaque]
    pub open spec fn pressed(self, p: WindowPress, now: u64) -> DetachedUi {
        if self.menu_open {
            self.menu_closed().painted()
        } else if p.zone != ResizeZone::Interior {
            self
        } else {
            match p.title {
                Some(TitleHit::Close) => self,
                Some(TitleHit::Bar) => self.bar_pressed(p, now),
                None => if Self::grid_dead(p) {
                    self
                } else {
                    self.grid_used(p.grid@.purpose())
                },
            }
        }
    }

    /// What the press comes to.
    #[verifier::opaque]
    pub open spec fn press_view(self, p: WindowPress, now: u64) -> PressView {
        if self.menu_open {
            if p.menu_row == Some(0usize) {
                PressView::Reattach
            } else if p.menu_row == Some(1usize) {
                PressView::Ask(AskView::CopySelection)
            } else if p.menu_row == Some(2usize) {
                PressView::Ask(AskView::PasteClipboard)
            } else {
                PressView::Ask(AskView::Nothing)
            }
        } else {
            match p.zone.pulls() {
                Some(d) => PressView::Ask(AskView::DragResize(d)),
                None => match p.title {
                    Some(TitleHit::Close) => PressView::Reattach,
                    Some(TitleHit::Bar) => PressView::Ask(self.bar_ask(p, now)),
                    None => PressView::Ask(
                        if Self::grid_dead(p) {
                            AskView::Nothing
                        } else {
                            grid_ask(p.grid@)
                        },
                    ),
                },
            }
        }
    }

    fn press_bar(self, p: &WindowPress, now: u64) -> (r: (DetachedUi, Ask))
        ensures
            r.0 == self.bar_pressed(*p, now),
            r.1@ == self.bar_ask(*p, now),
    {
        if self.is_double(p.near, now) {
            (DetachedUi { last_bar_click: None, ..self }, Ask::ToggleMaximized)
        } else {
            let ui: DetachedUi = DetachedUi {
                last_bar_click: Some(now),
                bar_drag: self.bar_drag || p.movable,
                ..self
            };
            if p.movable {
                (ui, Ask::Nothing)
            } else {
                (ui, Ask::DragWindow)
            }
        }
    }

    fn press_grid(self, p: &WindowPress) -> (r: DetachedUi)
        ensures
            r == if Self::grid_dead(*p) {
                self
            } else {
                self.grid_used(p.grid@.purpose())
            },
    {
        if is_dead(p) {
            self
        } else {
            self.use_grid(p.grid.purpose())
        }
    }

    fn press_ui(self, p: &WindowPress, now: u64) -> (r: DetachedUi)
        ensures
            r == self.pressed(*p, now),
    {
        proof {
            reveal(DetachedUi::pressed);
        }
        if self.menu_open {
            return self.menu_closed().painted();
        }
        if p.zone != ResizeZone::Interior {
            return self;
        }
        match p.title {
            Some(TitleHit::Close) => self,
            Some(TitleHit::Bar) => self.press_bar(p, now).0,
            None => self.press_grid(p),
        }
    }

    fn press_result(self, p: &WindowPress, now: u64) -> (r: PressResult)
        ensures
            r.view() == self.press_view(*p, now),
    {
        proof {
            reveal(DetachedUi::press_view);
        }
        if self.menu_open {
            return match p.menu_row {
                Some(0) => PressResult::Reattach,
                Some(1) => PressResult::Ask(Ask::CopySelection),
                Some(2) => PressResult::Ask(Ask::PasteClipboard),
                _ => PressResult::Ask(Ask::Nothing),
            };
        }
        if let Some(d) = p.zone.direction() {
            return PressResult::Ask(Ask::DragResize(d));
        }
        match p.title {
            Some(TitleHit::Close) => PressResult::Reattach,
            Some(TitleHit::Bar) => PressResult::Ask(self.press_bar(p, now).1),
            None => if is_dead(p) {
                PressResult::Ask(Ask::Nothing)
            } else {
                PressResult::Ask(crate::press::ask_grid(&p.grid))
            },
        }
    }
}

fn is_dead(p: &WindowPress) -> (r: bool)
    ensures
        r == DetachedUi::grid_dead(*p),
{
    if p.cell_known {
        return false;
    }
    match p.grid.purpose() {
        GridUse::HoldThumb | GridUse::JumpThumb => false,
        _ => true,
    }
}

impl AppView {
    /// The left button was pressed in the detached window at `pos`.
    pub open spec fn window_pressed(self, pos: int, p: WindowPress, env: Env) -> AppView {
        let ui = self.detached[pos].ui;
        let v = self.with_ui(pos, ui.pressed(p, env.now));
        match ui.press_view(p, env.now) {
            PressView::Reattach => v.reattach(pos, env),
            PressView::Ask(_) => v,
        }
    }

    /// What that press asks for.
    pub open spec fn window_press_ask(self, pos: int, p: WindowPress, env: Env) -> AskView {
        match self.detached[pos].ui.press_view(p, env.now) {
            PressView::Reattach => AskView::Nothing,
            PressView::Ask(a) => a,
        }
    }
}

impl App {
    /// Handles a press of the left button in the detached window at `pos`;
    /// nothing where there is no such window.
    pub fn detached_pressed(&mut self, pos: usize, p: WindowPress, env: &Env) -> (r: Ask)
        requires
            old(self)@.wf(),
            env.now <= LAST_INSTANT,
        ensures
            pos >= old(self)@.detached.len() ==> final(self)@ == old(self)@ && r@
                == AskView::Nothing,
            pos < old(self)@.detached.len() ==> final(self)@ == old(self)@.window_pressed(
                pos as int,
                p,
                *env,
            ) && r@ == old(self)@.window_press_ask(pos as int, p, *env),
            final(self)@.wf(),
    {
        if pos >= self.detached.len() {
            return Ask::Nothing;
        }
        let ui: DetachedUi = self.ui_at(pos);
        let out: PressResult = ui.press_result(&p, env.now);
        self.put_ui(pos, ui.press_ui(&p, env.now));
        match out {
            PressResult::Ask(a) => a,
            PressResult::Reattach => {
                self.reattach_tab(pos, env);
                Ask::Nothing
            },
        }
    }
}

/// What the release of the left button meets in a detached window.
#[derive(Debug, Clone, Copy)]
pub struct WindowRelease {
    /// The font is measured, so that cells are known.
    pub cell_known: bool,
    /// The pointer moved while the button was down.
    pub dragged: bool,
    /// The window was carried away from where the title bar was pressed.
    pub carried: bool,
    /// The pointer is over the main window's tab strip.
    pub on_strip: bool,
}

impl Stage {
    /// The hint on Shift+drag comes up in window `w`.
    pub open spec fn hint_shown(self, w: u64, now: u64) -> Stage {
        Stage {
            pointer: Pointer {
                shift_hint_until: Some(((now + SHIFT_HINT_SHOWN) as u64, w)),
                shift_hint_cooldown: Some((now + SHIFT_HINT_COOLDOWN) as u64),
                ..self.pointer
            },
            ..self
        }
    }

    fn show_hint_in(self, w: u64, now: u64) -> (r: Stage)
        requires
            now <= LAST_INSTANT,
        ensures
            r == self.hint_shown(w, now),
    {
        Stage {
            pointer: Pointer {
                shift_hint_until: Some((now + SHIFT_HINT_SHOWN, w)),
                shift_hint_cooldown: Some(now + SHIFT_HINT_COOLDOWN),
                ..self.pointer
            },
            ..self
        }
    }

    /// The hint on Shift+drag has rested.
    pub open spec fn hint_rested(self, now: u64) -> bool {
        self.pointer.shift_hint_cooldown matches Some(t) ==> now >= t
    }
}

impl AppView {
    /// A press that the program had was released in the detached window at
    /// `pos`; a drag shows how to select, once in a while.
    pub open spec fn window_ungrabbed(self, pos: int, dragged: bool, now: u64) -> AppView {
        let d = self.detached[pos];
        let shows = dragged && self.st.hint_rested(now);
        let ui = DetachedUi { grabbed: false, paint: d.ui.paint || shows, ..d.ui };
        if shows {
            (AppView { st: self.st.hint_shown(d.window, now), ..self }).with_ui(pos, ui)
        } else {
            self.with_ui(pos, ui)
        }
    }

    /// The left button was released in the detached window at `pos`. A window
    /// dropped on the main window's strip gives its tab back.
    #[verifier::opaque]
    pub open spec fn window_released(self, pos: int, r: WindowRelease, env: Env) -> AppView {
        let ui = self.detached[pos].ui;
        if ui.dragging_scrollbar {
            self.with_ui(pos, DetachedUi { dragging_scrollbar: false, ..ui })
        } else if ui.selecting {
            self.with_ui(pos, DetachedUi { selecting: false, paint: true, ..ui })
        } else if ui.grabbed {
            self.window_ungrabbed(pos, r.dragged, env.now)
        } else if ui.bar_drag {
            let v = self.with_ui(pos, DetachedUi { bar_drag: false, ..ui });
            if self.st.presence.visible && r.carried && r.on_strip {
                v.reattach(pos, env)
            } else {
                v
            }
        } else {
            self
        }
    }

    /// What that release asks for.
    pub open spec fn window_release_ask(self, pos: int, r: WindowRelease) -> AskView {
        let ui = self.detached[pos].ui;
        if ui.dragging_scrollbar {
            AskView::Nothing
        } else if ui.selecting {
            AskView::EndSelection
        } else if ui.grabbed && r.cell_known {
            AskView::Report(MouseReport::LeftRelease, 1)
        } else {
            AskView::Nothing
        }
    }
}

impl App {
    fn window_ungrab(&mut self, pos: usize, ui: DetachedUi, dragged: bool, now: u64)
        requires
            old(self)@.wf(),
            pos < old(self)@.detached.len(),
            ui == old(self)@.detached[pos as int].ui,
            now <= LAST_INSTANT,
        ensures
            final(self)@ == old(self)@.window_ungrabbed(pos as int, dragged, now),
            final(self)@.wf(),
    {
        let window: u64 = self.window_at(pos);
        let rested: bool = match self.st.pointer.shift_hint_cooldown {
            Some(t) => now >= t,
            None => true,
        };
        let shows: bool = dragged && rested;
        if shows {
            proof {
                lemma_narrow(self@.st, self@.st.hint_shown(window, now));
            }
            let st: Stage = self.st.show_hint_in(window, now);
            self.put_stage(st);
        }
        self.put_ui(pos, DetachedUi { grabbed: false, paint: ui.paint || shows, ..ui });
    }

    fn window_drop(&mut self, pos: usize, ui: DetachedUi, back: bool, env: &Env)
        requires
            old(self)@.wf(),
            pos < old(self)@.detached.len(),
            env.now <= LAST_INSTANT,
        ensures
            ({
                let v = old(self)@.with_ui(pos as int, DetachedUi { bar_drag: false, ..ui });
                final(self)@ == if back {
                    v.reattach(pos as int, *env)
                } else {
                    v
                }
            }),
            final(self)@.wf(),
    {
        self.put_ui(pos, DetachedUi { bar_drag: false, ..ui });
        if back {
            self.reattach_tab(pos, env);
        }
    }

    /// Handles the release of the left button in the detached window at
    /// `pos`; nothing where there is no such window.
    pub fn detached_released(&mut self, pos: usize, rel: WindowRelease, env: &Env) -> (r: Ask)
        requires
            old(self)@.wf(),
            env.now <= LAST_INSTANT,
        ensures
            pos >= old(self)@.detached.len() ==> final(self)@ == old(self)@ && r@
                == AskView::Nothing,
            pos < old(self)@.detached.len() ==> final(self)@ == old(self)@.window_released(
                pos as int,
                rel,
                *env,
            ) && r@ == old(self)@.window_release_ask(pos as int, rel),
            final(self)@.wf(),
    {
        if pos >= self.detached.len() {
            return Ask::Nothing;
        }
        proof {
            reveal(AppView::window_released);
        }
        let ui: DetachedUi = self.ui_at(pos);
        if ui.dragging_scrollbar {
            self.put_ui(pos, DetachedUi { dragging_scrollbar: false, ..ui });
            Ask::Nothing
        } else if ui.selecting {
            self.put_ui(pos, DetachedUi { selecting: false, paint: true, ..ui });
            Ask::EndSelection
        } else if ui.grabbed {
            self.window_ungrab(pos, ui, rel.dragged, env.now);
            if rel.cell_known {
                Ask::Report(MouseReport::LeftRelease, 1)
            } else {
                Ask::Nothing
            }
        } else if ui.bar_drag {
            let back: bool = self.st.presence.visible && rel.carried && rel.on_strip;
            self.window_drop(pos, ui, back, env);
            Ask::Nothing
        } else {
            Ask::Nothing
        }
    }

    /// Handles a press of the right button in the detached window at `pos`: its
    /// menu opens.
    pub fn detached_right_button(&mut self, pos: usize)
        requires
            old(self)@.wf(),
        ensures
            final(self)@ == if pos < old(self)@.detached.len() {
                old(self)@.with_ui(
                    pos as int,
                    (DetachedUi {
                        menu_open: true,
                        menu_hover: None,
                        paint: true,
                        ..old(self)@.detached[pos as int].ui
                    }),
                )
            } else {
                old(self)@
            },
            final(self)@.wf(),
    {
        if pos < self.detached.len() {
            let ui: DetachedUi = self.ui_at(pos);
            self.put_ui(pos, DetachedUi { menu_open: true, menu_hover: None, paint: true, ..ui });
        }
    }

    /// The wheel turned in the detached window at `pos`.
    pub fn detached_wheel(&mut self, pos: usize, w: Wheel) -> (r: Ask)
        requires
            old(self)@.wf(),
        ensures
            pos >= old(self)@.detached.len() ==> final(self)@ == old(self)@ && r@
                == AskView::Nothing,
            pos < old(self)@.detached.len() ==> r@ == w.ask() && final(self)@ == if r@
                is ScrollLines {
                old(self)@.with_ui(
                    pos as int,
                    old(self)@.detached[pos as int].ui.painted().relinked(),
                )
            } else {
                old(self)@
            },
            final(self)@.wf(),
    {
        if pos >= self.detached.len() {
            return Ask::Nothing;
        }
        let ask: Ask = w.decide();
        if let Ask::ScrollLines(_) = ask {
            let ui: DetachedUi = self.ui_at(pos);
            self.put_ui(pos, ui.painted().relinked());
        }
        ask
    }
}

impl DetachedUi {
    /// What a press of the middle button in a detached window asks for.
    pub fn middle_button(self, over_grid: bool, mouse_mode: bool, shift: bool) -> (r: Ask)
        ensures
            r@ == if self.menu_open || !over_grid || (mouse_mode && !shift) {
                AskView::Nothing
            } else {
                AskView::PasteClipboard
            },
    {
        if self.menu_open || !over_grid || (mouse_mode && !shift) {
            Ask::Nothing
        } else {
            Ask::PasteClipboard
        }
    }
}

/// A plain click on the title bar of a detached window never takes the tab
/// back, wherever the window stands.
pub proof fn law_click_does_not_reattach(v: AppView, pos: int, r: WindowRelease, env: Env)
    requires
        0 <= pos < v.detached.len(),
        !r.carried,
    ensures
        v.window_released(pos, r, env).tabs == v.tabs,
        v.window_released(pos, r, env).detached.len() == v.detached.len(),
{
    reveal(AppView::window_released);
}

/// A release in a detached window is told to the program only where its press
/// was.
pub proof fn law_window_release_needs_press(v: AppView, pos: int, r: WindowRelease)
    requires
        !v.detached[pos].ui.grabbed,
    ensures
        v.window_release_ask(pos, r) !is Report,
{
}

impl DetachedUi {
    /// Text on its way to the window's shell flashes its caret.
    pub open spec fn typed(self, bytes: Seq<u8>, flash: bool, now: u64) -> DetachedUi {
        DetachedUi {
            caret_anim: if flash && printable(bytes) {
                Some(now)
            } else {
                self.caret_anim
            },
            paint: true,
            ..self
        }
    }

    fn type_bytes(self, bytes: &Vec<u8>, flash: bool, now: u64) -> (r: DetachedUi)
        ensures
            r == self.typed(bytes@, flash, now),
    {
        let caret_anim: Option<u64> = if flash && is_printable_keystroke(bytes.as_slice()) {
            Some(now)
        } else {
            self.caret_anim
        };
        DetachedUi { caret_anim, paint: true, ..self }
    }

    /// Escape closes the window's open menu in place of reaching its shell.
    pub open spec fn menu_takes(self, bytes: Seq<u8>) -> bool {
        bytes == seq![0x1bu8] && self.menu_open
    }
}

impl KeyView {
    /// A chord of the Command key alone.
    pub open spec fn command_only(self) -> bool {
        self.sup && !self.ctrl && !self.alt
    }
}

impl AppView {
    /// An action of a key in the detached window at `pos`. What concerns the
    /// whole application works as in the main window; closing and detaching
    /// give the tab back; what only the main window has does nothing.
    #[verifier::opaque]
    pub open spec fn window_acted(self, pos: int, a: KeyAction, command: bool, env: Env) -> AppView {
        let ui = self.detached[pos].ui;
        match a {
            KeyAction::TogglePanel => AppView { st: self.st.panel_closed(), ..self },
            KeyAction::OpenPalette => if command {
                self
            } else {
                AppView { st: self.st.panel_closed(), ..self }
            },
            KeyAction::NextTab => self.switch_tab(true),
            KeyAction::PrevTab => self.switch_tab(false),
            KeyAction::SelectTab(n) => self.select_tab(n as int),
            KeyAction::CloseTab | KeyAction::DetachTab => self.reattach(pos, env),
            KeyAction::FontUp | KeyAction::FontDown | KeyAction::FontReset => self.font_sized(
                env.now,
            ),
            KeyAction::OpacityUp | KeyAction::OpacityDown => AppView {
                st: self.st.opacity_stepped(),
                ..self
            },
            KeyAction::ScrollPageUp | KeyAction::ScrollPageDown => self.with_ui(
                pos,
                ui.painted().relinked(),
            ),
            KeyAction::SelectAll => self.with_ui(pos, ui.painted()),
            _ => self,
        }
    }

    /// What an action of a key in a detached window asks for.
    pub open spec fn window_action_ask(self, a: KeyAction, command: bool) -> AskView {
        match a {
            KeyAction::TogglePanel => self.settings_ask(),
            KeyAction::OpenPalette => if command {
                AskView::Nothing
            } else {
                self.settings_ask()
            },
            KeyAction::NewTab => AskView::SpawnTab,
            KeyAction::FontUp => AskView::FontUp,
            KeyAction::FontDown => AskView::FontDown,
            KeyAction::FontReset => AskView::FontReset,
            KeyAction::OpacityUp => AskView::OpacityUp,
            KeyAction::OpacityDown => AskView::OpacityDown,
            KeyAction::ScrollPageUp => AskView::ScrollPage(true),
            KeyAction::ScrollPageDown => AskView::ScrollPage(false),
            KeyAction::PrevPrompt => AskView::JumpPrompt(false),
            KeyAction::NextPrompt => AskView::JumpPrompt(true),
            KeyAction::Copy => AskView::CopySelection,
            KeyAction::Paste => AskView::PasteClipboard,
            KeyAction::SelectAll => AskView::SelectAll,
            _ => AskView::Nothing,
        }
    }

    /// The settings window is built where there is none.
    pub open spec fn settings_ask(self) -> AskView {
        if self.st.presence.settings_window is None {
            AskView::OpenSettings
        } else {
            AskView::Nothing
        }
    }

    /// Bytes for the shell of the detached window at `pos`.
    pub open spec fn window_sent(self, pos: int, b: Seq<u8>, now: u64) -> AppView {
        let ui = self.detached[pos].ui;
        if ui.menu_takes(b) {
            self.with_ui(pos, ui.menu_closed().painted())
        } else {
            self.with_ui(pos, ui.typed(b, self.st.prefs.fx.caret_flash_enabled, now))
        }
    }

    /// A key was pressed in the detached window at `pos`.
    pub open spec fn window_key(self, pos: int, k: KeyView, env: Env) -> AppView {
        if k.synthetic {
            self
        } else {
            match k.resolved() {
                DecisionView::Act(a) => self.window_acted(pos, a, k.command_only(), env),
                DecisionView::Send(b) => self.window_sent(pos, b, env.now),
                DecisionView::Nothing => self,
            }
        }
    }

    /// What that key asks for.
    pub open spec fn window_key_ask(self, pos: int, k: KeyView) -> AskView {
        if k.synthetic {
            AskView::Nothing
        } else {
            match k.resolved() {
                DecisionView::Act(a) => self.window_action_ask(a, k.command_only()),
                DecisionView::Send(b) => if self.detached[pos].ui.menu_takes(b) {
                    AskView::Nothing
                } else {
                    AskView::Send(b)
                },
                DecisionView::Nothing => AskView::Nothing,
            }
        }
    }
}

impl App {
    fn close_panel(&mut self)
        requires
            old(self)@.wf(),
        ensures
            final(self)@ == (AppView { st: old(self)@.st.panel_closed(), ..old(self)@ }),
            final(self)@.wf(),
    {
        proof {
            lemma_narrow(self@.st, self@.st.panel_closed());
        }
        let st: Stage = self.st.close_panel();
        self.put_stage(st);
    }

    fn step_opacity(&mut self)
        requires
            old(self)@.wf(),
        ensures
            final(self)@ == (AppView { st: old(self)@.st.opacity_stepped(), ..old(self)@ }),
            final(self)@.wf(),
    {
        proof {
            lemma_narrow(self@.st, self@.st.opacity_stepped());
        }
        let st: Stage = self.st.opacity_stepped();
        self.put_stage(st);
    }

    fn ask_window_action(&self, a: KeyAction, command: bool) -> (r: Ask)
        ensures
            r@ == self@.window_action_ask(a, command),
    {
        let panel: bool = match a {
            KeyAction::TogglePanel => true,
            KeyAction::OpenPalette => !command,
            _ => false,
        };
        if panel {
            return if self.st.presence.settings_window.is_none() {
                Ask::OpenSettings
            } else {
                Ask::Nothing
            };
        }
        match a {
            KeyAction::NewTab => Ask::SpawnTab,
            KeyAction::FontUp => Ask::FontUp,
            KeyAction::FontDown => Ask::FontDown,
            KeyAction::FontReset => Ask::FontReset,
            KeyAction::OpacityUp => Ask::OpacityUp,
            KeyAction::OpacityDown => Ask::OpacityDown,
            KeyAction::ScrollPageUp => Ask::ScrollPage(true),
            KeyAction::ScrollPageDown => Ask::ScrollPage(false),
            KeyAction::PrevPrompt => Ask::JumpPrompt(false),
            KeyAction::NextPrompt => Ask::JumpPrompt(true),
            KeyAction::Copy => Ask::CopySelection,
            KeyAction::Paste => Ask::PasteClipboard,
            KeyAction::SelectAll => Ask::SelectAll,
            _ => Ask::Nothing,
        }
    }

    #[verifier::spinoff_prover]
    fn window_act(&mut self, pos: usize, a: KeyAction, command: bool, env: &Env)
        requires
            old(self)@.wf(),
            pos < old(self)@.detached.len(),
            env.now <= LAST_INSTANT,
        ensures
            final(self)@ == old(self)@.window_acted(pos as int, a, command, *env),
            final(self)@.wf(),
    {
        proof {
            reveal(AppView::window_acted);
        }
        let ui: DetachedUi = self.ui_at(pos);
        match a {
            KeyAction::TogglePanel => {
                self.close_panel();
            },
            KeyAction::OpenPalette => {
                if !command {
                    self.close_panel();
                }
            },
            KeyAction::NextTab => {
                self.switch_tab(true);
            },
            KeyAction::PrevTab => {
                self.switch_tab(false);
            },
            KeyAction::SelectTab(n) => {
                self.select_tab(n);
            },
            KeyAction::CloseTab | KeyAction::DetachTab => {
                self.reattach_tab(pos, env);
            },
            KeyAction::FontUp | KeyAction::FontDown | KeyAction::FontReset => {
                self.font_sized(env.now);
            },
            KeyAction::OpacityUp | KeyAction::OpacityDown => {
                self.step_opacity();
            },
            KeyAction::ScrollPageUp | KeyAction::ScrollPageDown => {
                self.put_ui(pos, ui.painted().relinked());
            },
            KeyAction::SelectAll => {
                self.put_ui(pos, ui.painted());
            },
            _ => {},
        }
    }

    fn window_send(&mut self, pos: usize, b: Vec<u8>, now: u64) -> (r: Ask)
        requires
            old(self)@.wf(),
            pos < old(self)@.detached.len(),
        ensures
            final(self)@ == old(self)@.window_sent(pos as int, b@, now),
            r@ == if old(self)@.detached[pos as int].ui.menu_takes(b@) {
                AskView::Nothing
            } else {
                AskView::Send(b@)
            },
            final(self)@.wf(),
    {
        let ui: DetachedUi = self.ui_at(pos);
        let lone: bool = b.len() == 1 && b[0] == 0x1b;
        assert(lone == (b@ == seq![0x1bu8])) by {
            if lone {
                assert(b@ =~= seq![0x1bu8]);
            }
        }
        if lone && ui.menu_open {
            self.put_ui(pos, ui.menu_closed().painted());
            return Ask::Nothing;
        }
        let flash: bool = self.st.prefs.fx.caret_flash_enabled;
        self.put_ui(pos, ui.type_bytes(&b, flash, now));
        Ask::Send(b)
    }

    /// Handles a key press in the detached window at `pos`; nothing where
    /// there is no such window.
    pub fn detached_key(&mut self, pos: usize, k: KeyPress, env: &Env) -> (r: Ask)
        requires
            old(self)@.wf(),
            env.now <= LAST_INSTANT,
        ensures
            pos >= old(self)@.detached.len() ==> final(self)@ == old(self)@ && r@
                == AskView::Nothing,
            pos < old(self)@.detached.len() ==> final(self)@ == old(self)@.window_key(
                pos as int,
                k@,
                *env,
            ) && r@ == old(self)@.window_key_ask(pos as int, k@),
            final(self)@.wf(),
    {
        if k.synthetic || pos >= self.detached.len() {
            return Ask::Nothing;
        }
        let command: bool = k.sup && !k.ctrl && !k.alt;
        match resolve(k) {
            Decision::Act(a) => {
                let ask: Ask = self.ask_window_action(a, command);
                self.window_act(pos, a, command, env);
                ask
            },
            Decision::Send(b) => self.window_send(pos, b, env.now),
            Decision::Nothing => Ask::Nothing,
        }
    }

    /// Handles text that an input method composed in the detached window at
    /// `pos`.
    pub fn detached_ime(&mut self, pos: usize, text: &str, now: u64) -> (r: Ask)
        requires
            old(self)@.wf(),
        ensures
            ({
                let v = old(self)@;
                let b = vstd::utf8::encode_utf8(text@);
                let none = text@.len() == 0 || pos >= v.detached.len();
                &&& final(self)@ == if none {
                    v
                } else {
                    v.with_ui(
                        pos as int,
                        v.detached[pos as int].ui.typed(b, v.st.prefs.fx.caret_flash_enabled, now),
                    )
                }
                &&& r@ == if none {
                    AskView::Nothing
                } else {
                    AskView::Send(b)
                }
            }),
            final(self)@.wf(),
    {
        if text.is_empty() || pos >= self.detached.len() {
            return Ask::Nothing;
        }
        let b: Vec<u8> = text.as_bytes_vec();
        let ui: DetachedUi = self.ui_at(pos);
        let flash: bool = self.st.prefs.fx.caret_flash_enabled;
        self.put_ui(pos, ui.type_bytes(&b, flash, now));
        Ask::Send(b)
    }
}

/// The search bar, hint mode, copy mode and quitting belong to the main
/// window: their chords do nothing in a detached one.
pub proof fn law_main_only_actions(v: AppView, pos: int, a: KeyAction, command: bool, env: Env)
    requires
        a == KeyAction::SearchToggle || a == KeyAction::HintMode || a == KeyAction::CopyMode || a
            == KeyAction::Quit,
    ensures
        v.window_acted(pos, a, command, env) == v,
        v.window_action_ask(a, command) == AskView::Nothing,
{
    reveal(AppView::window_acted);
}

/// A press on the open menu of a detached window closes it: its first row puts
/// the tab back, its second copies, its third pastes, anywhere else nothing.
pub proof fn law_window_menu_rows(v: AppView, pos: int, p: WindowPress, env: Env)
    requires
        0 <= pos < v.detached.len(),
        v.detached[pos].ui.menu_open,
    ensures
        ({
            let w = v.window_pressed(pos, p, env);
            let ask = v.window_press_ask(pos, p, env);
            &&& p.menu_row == Some(0usize) ==> w.tabs.len() == v.tabs.len() + 1 && w.tabs.last().id
                == v.detached[pos].tab.id && w.detached == v.detached.remove(pos) && ask
                == AskView::Nothing
            &&& p.menu_row == Some(1usize) ==> ask == AskView::CopySelection
            &&& p.menu_row == Some(2usize) ==> ask == AskView::PasteClipboard
            &&& p.menu_row is None || p.menu_row.unwrap() > 2 ==> ask == AskView::Nothing
            &&& p.menu_row != Some(0usize) ==> !w.detached[pos].ui.menu_open
                && w.detached[pos].ui.paint && w.tabs == v.tabs && w.st == v.st
        }),
{
    reveal(DetachedUi::pressed);
    reveal(DetachedUi::press_view);
    if p.menu_row == Some(0usize) {
        assert(v.with_ui(pos, v.detached[pos].ui.pressed(p, env.now)).detached.remove(pos)
            == v.detached.remove(pos));
    }
}

/// With no menu open an edge resizes, the cross puts the tab back, and the bar
/// drags the window, or on a second press near the first and within two fifths
/// of a second maximizes it.
pub proof fn law_window_frame_presses(v: AppView, pos: int, p: WindowPress, env: Env)
    requires
        0 <= pos < v.detached.len(),
        !v.detached[pos].ui.menu_open,
    ensures
        ({
            let u = v.detached[pos].ui;
            let w = v.window_pressed(pos, p, env);
            let ask = v.window_press_ask(pos, p, env);
            let inside = p.zone == ResizeZone::Interior;
            let bar = inside && p.title == Some(TitleHit::Bar);
            let twice = p.near && (u.last_bar_click matches Some(t) && env.now <= t + 400_000_000);
            &&& !inside ==> ask is DragResize && w.detached[pos] == v.detached[pos] && w.tabs
                == v.tabs
            &&& inside && p.title == Some(TitleHit::Close) ==> ask == AskView::Nothing && w.tabs.len()
                == v.tabs.len() + 1 && w.tabs.last().id == v.detached[pos].tab.id && w.detached.len()
                == v.detached.len() - 1
            &&& bar ==> w.tabs == v.tabs && w.st == v.st
            &&& bar && twice ==> ask == AskView::ToggleMaximized && w.detached[pos].ui.last_bar_click
                is None && w.detached[pos].ui.bar_drag == u.bar_drag
            &&& bar && !twice ==> w.detached[pos].ui.last_bar_click == Some(env.now)
            &&& bar && !twice && p.movable ==> ask == AskView::Nothing
                && w.detached[pos].ui.bar_drag
            &&& bar && !twice && !p.movable ==> ask == AskView::DragWindow
                && w.detached[pos].ui.bar_drag == u.bar_drag
        }),
{
    reveal(DetachedUi::pressed);
    reveal(DetachedUi::press_view);
}

/// A press on the grid of a detached window is put to the use that it has in
/// the main one; off every cell only the scrollbar takes it.
pub proof fn law_window_grid_presses(v: AppView, pos: int, p: WindowPress, env: Env)
    requires
        0 <= pos < v.detached.len(),
        !v.detached[pos].ui.menu_open,
        p.zone == ResizeZone::Interior,
        p.title is None,
    ensures
        ({
            let u = v.detached[pos].ui;
            let how = p.grid@.purpose();
            let thumb = how == GridUse::HoldThumb || how == GridUse::JumpThumb;
            let w = v.window_pressed(pos, p, env);
            let ask = v.window_press_ask(pos, p, env);
            let x = w.detached[pos].ui;
            &&& !p.cell_known && !thumb ==> x == u && ask == AskView::Nothing
            &&& p.cell_known || thumb ==> ask == grid_ask(p.grid@)
            &&& thumb ==> x.dragging_scrollbar && x.selecting == u.selecting && x.grabbed
                == u.grabbed
            &&& how == GridUse::JumpThumb ==> x.paint
            &&& p.cell_known && how == GridUse::Report ==> x.grabbed && x.selecting == u.selecting
            &&& p.cell_known && how == GridUse::Select ==> x.selecting && x.paint && x.grabbed
                == u.grabbed
            &&& p.cell_known && how == GridUse::Follow ==> x == u
            &&& !thumb ==> x.dragging_scrollbar == u.dragging_scrollbar
            &&& w.tabs == v.tabs && w.st == v.st
        }),
{
    reveal(DetachedUi::pressed);
    reveal(DetachedUi::press_view);
}

/// A release lets the scrollbar go, or else ends a selection and paints it.
pub proof fn law_window_releases(v: AppView, pos: int, r: WindowRelease, env: Env)
    requires
        0 <= pos < v.detached.len(),
        v.detached[pos].ui.dragging_scrollbar || v.detached[pos].ui.selecting,
    ensures
        ({
            let u = v.detached[pos].ui;
            let x = v.window_released(pos, r, env).detached[pos].ui;
            &&& u.dragging_scrollbar ==> !x.dragging_scrollbar && x.selecting == u.selecting
            &&& !u.dragging_scrollbar && u.selecting ==> !x.selecting && x.paint
        }),
{
    reveal(AppView::window_released);
}

/// A button that a program holds comes up with the release.
pub proof fn law_window_ungrabs(v: AppView, pos: int, r: WindowRelease, env: Env)
    requires
        0 <= pos < v.detached.len(),
        v.detached[pos].ui.grabbed,
        !v.detached[pos].ui.dragging_scrollbar,
        !v.detached[pos].ui.selecting,
    ensures
        !v.window_released(pos, r, env).detached[pos].ui.grabbed,
{
    reveal(AppView::window_released);
}

/// A release that ends no carrying of the window moves no tab, and one that
/// ends nothing does nothing.
pub proof fn law_window_release_moves_no_tab(v: AppView, pos: int, r: WindowRelease, env: Env)
    requires
        0 <= pos < v.detached.len(),
        !v.detached[pos].ui.bar_drag || v.detached[pos].ui.dragging_scrollbar
            || v.detached[pos].ui.selecting || v.detached[pos].ui.grabbed,
    ensures
        v.window_released(pos, r, env).tabs == v.tabs,
        ({
            let u = v.detached[pos].ui;
            !u.dragging_scrollbar && !u.selecting && !u.grabbed ==> v.window_released(pos, r, env)
                == v
        }),
{
    reveal(AppView::window_released);
}

/// What a release asks for: a selection to end, or the program to be told.
pub proof fn law_window_release_asks(v: AppView, pos: int, r: WindowRelease)
    ensures
        ({
            let u = v.detached[pos].ui;
            let ask = v.window_release_ask(pos, r);
            &&& u.dragging_scrollbar ==> ask == AskView::Nothing
            &&& !u.dragging_scrollbar && u.selecting ==> ask == AskView::EndSelection
            &&& !u.dragging_scrollbar && !u.selecting && u.grabbed && r.cell_known ==> ask
                == AskView::Report(MouseReport::LeftRelease, 1)
            &&& !u.selecting && (!u.grabbed || !r.cell_known) ==> ask == AskView::Nothing
        }),
{
}

/// A window that was carried by its bar puts its tab back when it is dropped on
/// the strip of a shown main window, and stays where it is otherwise.
pub proof fn law_window_drops(v: AppView, pos: int, r: WindowRelease, env: Env)
    requires
        0 <= pos < v.detached.len(),
        v.detached[pos].ui.bar_drag,
        !v.detached[pos].ui.dragging_scrollbar,
        !v.detached[pos].ui.selecting,
        !v.detached[pos].ui.grabbed,
    ensures
        ({
            let w = v.window_released(pos, r, env);
            let lands = v.st.presence.visible && r.carried && r.on_strip;
            &&& lands ==> w.tabs.len() == v.tabs.len() + 1 && w.tabs.last().id
                == v.detached[pos].tab.id && w.active == v.tabs.len() && w.detached.len()
                == v.detached.len() - 1
            &&& !lands ==> w.tabs == v.tabs && w.st == v.st && !w.detached[pos].ui.bar_drag
            &&& v.window_release_ask(pos, r) == AskView::Nothing
        }),
{
    reveal(AppView::window_released);
}

/// A drag that a program took shows, once in a while, that Shift selects: for
/// three and a half seconds, and not again for twenty-five.
pub proof fn law_window_shift_hint(v: AppView, pos: int, r: WindowRelease, env: Env)
    requires
        0 <= pos < v.detached.len(),
        v.detached[pos].ui.grabbed,
        !v.detached[pos].ui.dragging_scrollbar,
        !v.detached[pos].ui.selecting,
        env.now <= LAST_INSTANT,
    ensures
        ({
            let w = v.window_released(pos, r, env);
            let rested = v.st.pointer.shift_hint_cooldown is None
                || v.st.pointer.shift_hint_cooldown.unwrap() <= env.now;
            &&& r.dragged && rested ==> w.st.pointer.shift_hint_until == Some(
                ((env.now + 3_500_000_000) as u64, v.detached[pos].window),
            ) && w.st.pointer.shift_hint_cooldown == Some((env.now + 25_000_000_000) as u64)
                && w.detached[pos].ui.paint
            &&& !r.dragged || !rested ==> w.st == v.st
        }),
{
    reveal(AppView::window_released);
}

/// Where the pointer goes over a detached window: a held bar carries the
/// window, an open menu marks a row, a held scrollbar scrolls, a selection
/// grows, and else the cursor takes the shape of what is under it.
pub proof fn law_window_moves(u: DetachedUi, m: WindowMove)
    ensures
        ({
            let x = u.moved(m);
            let ask = u.move_ask(m);
            &&& ask.carry == u.bar_drag
            &&& u.bar_drag ==> x == u && !ask.scroll && !ask.extend && ask.report is None
                && !ask.relink
            &&& !u.bar_drag && u.menu_open ==> x.menu_hover == m.menu_row && (m.menu_row
                != u.menu_hover ==> x.paint) && !ask.scroll && !ask.extend && ask.report is None
                && !ask.relink
            &&& !u.bar_drag && !u.menu_open && u.dragging_scrollbar ==> ask.scroll && x.paint
                && !x.link_hover && !ask.extend && ask.report is None && !ask.relink
            &&& !u.bar_drag && !u.menu_open && !u.dragging_scrollbar ==> !ask.scroll && ask.relink
            &&& !u.bar_drag && !u.menu_open && !u.dragging_scrollbar && u.selecting ==> ask.extend
                == m.cell_known && ask.report is None && (m.cell_known ==> x.paint)
            &&& !u.bar_drag && !u.menu_open && !u.dragging_scrollbar && !u.selecting
                ==> x.resize_zone == m.zone && x.close_hover == m.over_close && (m.over_close
                != u.close_hover ==> x.paint) && !ask.extend
            &&& x.bar_drag == u.bar_drag && x.menu_open == u.menu_open && x.selecting == u.selecting
                && x.grabbed == u.grabbed && x.dragging_scrollbar == u.dragging_scrollbar
        }),
{
}

/// A program that asked for it is told where the pointer goes, once for each
/// cell: as a drag while it holds the button, as a plain move else.
pub proof fn law_window_motion_reports(u: DetachedUi, m: WindowMove)
    requires
        !u.bar_drag,
        !u.menu_open,
        !u.dragging_scrollbar,
        !u.selecting,
    ensures
        m.cell_known && m.cell_changed && m.wants_motion && !u.grabbed ==> u.move_ask(m).report
            == Some(3u8),
        m.cell_known && m.cell_changed && (m.wants_motion || m.wants_drag) && u.grabbed
            ==> u.move_ask(m).report == Some(0u8),
        !m.cell_known || !m.cell_changed || (!m.wants_motion && !m.wants_drag) ==> u.move_ask(
            m,
        ).report is None,
        !m.wants_motion && !u.grabbed ==> u.move_ask(m).report is None,
{
}

/// The actions that a detached window's keys reach ask for the effect they are
/// named for.
pub proof fn law_window_actions_ask(v: AppView, command: bool)
    ensures
        v.window_action_ask(KeyAction::NewTab, command) == AskView::SpawnTab,
        v.window_action_ask(KeyAction::FontUp, command) == AskView::FontUp,
        v.window_action_ask(KeyAction::FontDown, command) == AskView::FontDown,
        v.window_action_ask(KeyAction::FontReset, command) == AskView::FontReset,
        v.window_action_ask(KeyAction::OpacityUp, command) == AskView::OpacityUp,
        v.window_action_ask(KeyAction::OpacityDown, command) == AskView::OpacityDown,
        v.window_action_ask(KeyAction::ScrollPageUp, command) == AskView::ScrollPage(true),
        v.window_action_ask(KeyAction::ScrollPageDown, command) == AskView::ScrollPage(false),
        v.window_action_ask(KeyAction::PrevPrompt, command) == AskView::JumpPrompt(false),
        v.window_action_ask(KeyAction::NextPrompt, command) == AskView::JumpPrompt(true),
        v.window_action_ask(KeyAction::Copy, command) == AskView::CopySelection,
        v.window_action_ask(KeyAction::Paste, command) == AskView::PasteClipboard,
        v.window_action_ask(KeyAction::SelectAll, command) == AskView::SelectAll,
        v.window_action_ask(KeyAction::CloseTab, command) == AskView::Nothing,
        v.window_action_ask(KeyAction::DetachTab, command) == AskView::Nothing,
        v.window_action_ask(KeyAction::NextTab, command) == AskView::Nothing,
        v.window_action_ask(KeyAction::PrevTab, command) == AskView::Nothing,
        v.st.presence.settings_window is None ==> v.window_action_ask(
            KeyAction::TogglePanel,
            command,
        ) == AskView::OpenSettings,
        v.st.presence.settings_window is Some ==> v.window_action_ask(
            KeyAction::TogglePanel,
            command,
        ) == AskView::Nothing,
        v.window_action_ask(KeyAction::OpenPalette, true) == AskView::Nothing,
        v.window_action_ask(KeyAction::OpenPalette, false) == v.window_action_ask(
            KeyAction::TogglePanel,
            command,
        ),
{
}

/// The key that closes a tab and the one that detaches it both put a detached
/// window's tab back, as the last and active one.
pub proof fn law_window_keys_reattach(v: AppView, pos: int, command: bool, env: Env)
    requires
        0 <= pos < v.detached.len(),
    ensures
        ({
            let w = v.window_acted(pos, KeyAction::CloseTab, command, env);
            &&& w.tabs.len() == v.tabs.len() + 1 && w.tabs.last().id == v.detached[pos].tab.id
            &&& w.active == v.tabs.len() && w.detached == v.detached.remove(pos)
        }),
        v.window_acted(pos, KeyAction::DetachTab, command, env) == v.window_acted(
            pos,
            KeyAction::CloseTab,
            command,
            env,
        ),
{
    reveal(AppView::window_acted);
}

/// What the other actions do to a detached window and to the main one.
pub proof fn law_window_actions_do(v: AppView, pos: int, command: bool, env: Env)
    requires
        0 <= pos < v.detached.len(),
        env.now <= LAST_INSTANT,
    ensures
        v.window_acted(pos, KeyAction::TogglePanel, command, env).st.presence.settings_window
            is None,
        v.window_acted(pos, KeyAction::OpenPalette, true, env) == v,
        v.window_acted(pos, KeyAction::OpenPalette, false, env).st.presence.settings_window is None,
        v.window_acted(pos, KeyAction::FontUp, command, env).st.timers.reflow_pending_at == Some(
            (env.now + 250_000_000) as u64,
        ),
        v.window_acted(pos, KeyAction::FontDown, command, env).st.timers.reflow_pending_at == Some(
            (env.now + 250_000_000) as u64,
        ),
        v.window_acted(pos, KeyAction::FontReset, command, env).st.timers.reflow_pending_at == Some(
            (env.now + 250_000_000) as u64,
        ),
        v.window_acted(pos, KeyAction::OpacityUp, command, env).st.due.restyle,
        v.window_acted(pos, KeyAction::OpacityDown, command, env).st.due.restyle,
        v.window_acted(pos, KeyAction::ScrollPageUp, command, env).detached[pos].ui.paint,
        v.window_acted(pos, KeyAction::ScrollPageDown, command, env).detached[pos].ui.paint,
        v.window_acted(pos, KeyAction::ScrollPageUp, command, env).detached[pos].ui.relink,
        v.window_acted(pos, KeyAction::ScrollPageDown, command, env).detached[pos].ui.relink,
        v.window_acted(pos, KeyAction::SelectAll, command, env).detached[pos].ui.paint,
        v.window_acted(pos, KeyAction::Copy, command, env) == v,
        v.window_acted(pos, KeyAction::Paste, command, env) == v,
        v.window_acted(pos, KeyAction::NewTab, command, env) == v,
{
    reveal(AppView::window_acted);
}

/// What is typed into a detached window is sent and painted; with the caret's
/// flash on it starts one where it shows; Escape closes an open menu instead.
pub proof fn law_window_typing(v: AppView, pos: int, k: KeyView, b: Seq<u8>, env: Env)
    requires
        0 <= pos < v.detached.len(),
        !k.synthetic,
        k.resolved() == DecisionView::Send(b),
    ensures
        ({
            let u = v.detached[pos].ui;
            let w = v.window_key(pos, k, env);
            let ask = v.window_key_ask(pos, k);
            let x = w.detached[pos].ui;
            let escape = b.len() == 1 && b[0] == 0x1b;
            &&& escape && u.menu_open ==> !x.menu_open && ask == AskView::Nothing
            &&& !(escape && u.menu_open) ==> ask == AskView::Send(b) && x.menu_open == u.menu_open
            &&& x.paint
            &&& !(escape && u.menu_open) && v.st.prefs.fx.caret_flash_enabled && printable(b)
                ==> x.caret_anim == Some(env.now)
            &&& !v.st.prefs.fx.caret_flash_enabled || !printable(b) ==> x.caret_anim
                == u.caret_anim
            &&& w.tabs == v.tabs && w.st == v.st
        }),
{
    assert(b == seq![0x1bu8] <==> b.len() == 1 && b[0] == 0x1b) by {
        if b.len() == 1 && b[0] == 0x1b {
            assert(b =~= seq![0x1bu8]);
        }
    }
}

/// A key that was not pressed by hand does nothing in a detached window, nor
/// does one that is bound to nothing and sends nothing.
pub proof fn law_window_ignores(v: AppView, pos: int, k: KeyView, env: Env)
    requires
        k.synthetic || k.resolved() == DecisionView::Nothing,
    ensures
        v.window_key(pos, k, env) == v,
        v.window_key_ask(pos, k) == AskView::Nothing,
{
}

} // verus!
