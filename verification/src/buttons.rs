//! Releases, the right and the middle button, and the wheel in the main
//! window.

use vstd::prelude::*;

use crate::input::{Ask, AskView, MouseReport};
use crate::pointer::{SHIFT_HINT_COOLDOWN, SHIFT_HINT_SHOWN};
use crate::presence::LAST_INSTANT;
use crate::state::{hint_view, App, AppView, Due, Overlays, Pointer, Stage};
use crate::tabs::{lemma_keep, lemma_narrow, lemma_narrow_trans, lemma_wf_narrow};
use crate::zone::CursorIcon;

verus! {

/// What the release of the left button meets.
#[derive(Debug, Clone, Copy)]
pub struct Release {
    /// The program in the active tab reads the mouse.
    pub mouse_mode: bool,
    /// The pointer moved while the button was down.
    pub dragged: bool,
}

impl Stage {
    /// The drag of a tab that tears off ends in a window of its own.
    pub open spec fn tears_off(self) -> Option<usize> {
        match self.pointer.tab_drag {
            Some(d) if d.tearing => Some(d.idx),
            _ => None,
        }
    }

    /// A drag that a program swallowed shows how to select, once in a while.
    pub open spec fn hinted(self, dragged: bool, now: u64) -> Stage {
        let rested = self.pointer.shift_hint_cooldown matches Some(t) ==> now >= t;
        match self.presence.main_window {
            Some(w) if self.pointer.grabbed && dragged && rested => (Stage {
                pointer: Pointer {
                    shift_hint_until: Some(((now + SHIFT_HINT_SHOWN) as u64, w)),
                    shift_hint_cooldown: Some((now + SHIFT_HINT_COOLDOWN) as u64),
                    ..self.pointer
                },
                ..self
            }).paint_main(),
            _ => self,
        }
    }

    /// Every drag of the left button is over.
    pub open spec fn let_go(self) -> Stage {
        Stage {
            pointer: Pointer {
                tab_drag: None,
                dragging_scrollbar: false,
                selecting: false,
                grabbed: false,
                ..self.pointer
            },
            due: Due { paint_main: self.due.paint_main || self.pointer.selecting, ..self.due },
            ..self
        }
    }

    /// The left button was released.
    pub open spec fn released(self, r: Release, now: u64) -> Stage {
        if self.tears_off() is Some {
            Stage {
                pointer: Pointer { tab_drag: None, ..self.pointer },
                due: Due {
                    cursor: if self.presence.main_window is Some {
                        Some(CursorIcon::Default)
                    } else {
                        self.due.cursor
                    },
                    ..self.due
                },
                ..self
            }
        } else {
            self.hinted(r.dragged, now).let_go()
        }
    }

    /// What the release asks for. It is told to a program only where its press
    /// was, and a selection that ends is told to none.
    pub open spec fn release_ask(self, r: Release) -> AskView {
        match self.tears_off() {
            Some(i) => AskView::DetachHere(i as int),
            None => if self.pointer.selecting {
                AskView::EndSelection
            } else if !self.pointer.dragging_scrollbar && self.pointer.grabbed && r.mouse_mode {
                AskView::Report(MouseReport::LeftRelease, 1)
            } else {
                AskView::Nothing
            },
        }
    }

    fn show_hint(self, dragged: bool, now: u64) -> (r: Stage)
        requires
            now <= LAST_INSTANT,
        ensures
            r == self.hinted(dragged, now),
    {
        let rested: bool = match self.pointer.shift_hint_cooldown {
            Some(t) => now >= t,
            None => true,
        };
        match self.presence.main_window {
            Some(w) => {
                if !(self.pointer.grabbed && dragged && rested) {
                    return self;
                }
                (Stage {
                    pointer: Pointer {
                        shift_hint_until: Some((now + SHIFT_HINT_SHOWN, w)),
                        shift_hint_cooldown: Some(now + SHIFT_HINT_COOLDOWN),
                        ..self.pointer
                    },
                    ..self
                }).paint_main()
            },
            None => self,
        }
    }

    fn drop_drags(self) -> (r: Stage)
        ensures
            r == self.let_go(),
    {
        Stage {
            pointer: Pointer {
                tab_drag: None,
                dragging_scrollbar: false,
                selecting: false,
                grabbed: false,
                ..self.pointer
            },
            due: Due { paint_main: self.due.paint_main || self.pointer.selecting, ..self.due },
            ..self
        }
    }

    fn torn_idx(self) -> (r: Option<usize>)
        ensures
            r == self.tears_off(),
    {
        match self.pointer.tab_drag {
            Some(d) => if d.tearing {
                Some(d.idx)
            } else {
                None
            },
            None => None,
        }
    }

    fn release(self, rel: Release, now: u64) -> (r: (Stage, Ask))
        requires
            now <= LAST_INSTANT,
        ensures
            r.0 == self.released(rel, now),
            r.1@ == self.release_ask(rel),
    {
        if let Some(i) = self.torn_idx() {
            let cursor: Option<CursorIcon> = if self.presence.main_window.is_some() {
                Some(CursorIcon::Default)
            } else {
                self.due.cursor
            };
            let s: Stage = Stage {
                pointer: Pointer { tab_drag: None, ..self.pointer },
                due: Due { cursor, ..self.due },
                ..self
            };
            return (s, Ask::DetachHere(i));
        }
        let ask: Ask = if self.pointer.selecting {
            Ask::EndSelection
        } else if !self.pointer.dragging_scrollbar && self.pointer.grabbed && rel.mouse_mode {
            Ask::Report(MouseReport::LeftRelease, 1)
        } else {
            Ask::Nothing
        };
        (self.show_hint(rel.dragged, now).drop_drags(), ask)
    }

    /// The middle button is not for the terminal: something lies over it.
    pub open spec fn middle_blocked(self) -> bool {
        self.timers.slide_anim is Some || self.ui.palette_open || self.modal()
    }

    /// The right button opens no menu.
    pub open spec fn right_blocked(self) -> bool {
        ||| self.timers.slide_anim is Some
        ||| self.ui.confirm_quit
        ||| self.ui.confirm_close is Some
        ||| self.ui.help_open
        ||| self.ui.palette_open
    }

    /// The menu of tab `i` opens, alone; it can detach where another tab
    /// stays behind.
    pub open spec fn tab_menu_opened(self, i: usize, tabs: nat) -> Stage {
        (Stage {
            ui: Overlays {
                help_open: false,
                context_menu: false,
                menu_hover: None,
                tab_menu: Some(i),
                tab_menu_hover: None,
                tab_menu_detach: tabs >= 2,
                ..self.ui
            },
            ..self
        }).paint_main()
    }

    /// The context menu opens, alone.
    pub open spec fn menu_opened(self) -> Stage {
        (Stage {
            ui: Overlays {
                help_open: false,
                tab_menu: None,
                tab_menu_hover: None,
                tab_menu_detach: false,
                context_menu: true,
                menu_hover: None,
                ..self.ui
            },
            ..self
        }).paint_main()
    }
}

/// A release is told to a program only where its press was: chrome that took
/// the press never makes the program see half a click.
pub proof fn law_no_release_without_press(s: Stage, r: Release)
    requires
        !s.pointer.grabbed,
    ensures
        s.release_ask(r) !is Report,
{
}

/// After the release no drag is under way.
pub proof fn law_release_ends_drags(s: Stage, r: Release, now: u64)
    requires
        s.tears_off() is None,
    ensures
        ({
            let p = s.released(r, now).pointer;
            !p.selecting && !p.dragging_scrollbar && !p.grabbed && p.tab_drag is None
        }),
{
}

/// The hint on Shift+drag does not come again before its rest is over.
pub proof fn law_hint_rests(s: Stage, dragged: bool, now: u64)
    requires
        s.pointer.shift_hint_cooldown matches Some(t) && now < t,
    ensures
        s.hinted(dragged, now) == s,
{
}

/// Where the right button went down.
#[derive(Debug, Clone, Copy, PartialEq, Eq, Structural)]
pub enum RightHit {
    /// On a tab of the strip.
    Tab(usize),
    /// On the strip, beside the tabs.
    Strip,
    /// Below or above the strip.
    Grid,
}

impl AppView {
    /// The right button was pressed.
    #[verifier::opaque]
    pub open spec fn right_pressed(self, hit: RightHit) -> AppView {
        let v = self.renamed();
        if self.st.right_blocked() || self.tabs.len() == 0 {
            self
        } else {
            match hit {
                RightHit::Tab(i) => AppView {
                    st: v.st.tab_menu_opened(i, self.tabs.len()),
                    ..v
                },
                RightHit::Strip => self,
                RightHit::Grid => AppView { st: v.st.menu_opened(), ..v },
            }
        }
    }

    /// Who takes the wheel.
    pub open spec fn wheel_owner(self) -> WheelOwner {
        if self.tabs.len() == 0 || self.hint is Some || self.st.ui.copy_mode is Some {
            WheelOwner::Nobody
        } else if self.st.ui.palette_open {
            WheelOwner::Palette
        } else {
            WheelOwner::Grid
        }
    }
}

proof fn lemma_hinted_keep(s: Stage, dragged: bool, now: u64)
    ensures
        s.narrows_to(s.hinted(dragged, now)),
{
    lemma_keep(s, s.hinted(dragged, now));
}

proof fn lemma_let_go_narrow(s: Stage)
    ensures
        s.narrows_to(s.let_go()),
{
    lemma_narrow(s, s.let_go());
}

proof fn lemma_torn_off_narrow(s: Stage, cursor: Option<CursorIcon>)
    ensures
        s.narrows_to(
            Stage {
                pointer: Pointer { tab_drag: None, ..s.pointer },
                due: Due { cursor, ..s.due },
                ..s
            },
        ),
{
    lemma_narrow(
        s,
        Stage {
            pointer: Pointer { tab_drag: None, ..s.pointer },
            due: Due { cursor, ..s.due },
            ..s
        },
    );
}

proof fn lemma_released_narrow(s: Stage, rel: Release, now: u64)
    ensures
        s.narrows_to(s.released(rel, now)),
{
    if s.tears_off() is Some {
        lemma_torn_off_narrow(s, s.released(rel, now).due.cursor);
    } else {
        let h = s.hinted(rel.dragged, now);
        lemma_hinted_keep(s, rel.dragged, now);
        lemma_let_go_narrow(h);
        lemma_narrow_trans(s, h, h.let_go());
    }
}

impl App {
    /// Handles the release of the left button in the main window.
    pub fn left_released(&mut self, rel: Release, now: u64) -> (r: Ask)
        requires
            old(self)@.wf(),
            now <= LAST_INSTANT,
        ensures
            final(self)@ == (AppView { st: old(self)@.st.released(rel, now), ..old(self)@ }),
            r@ == old(self)@.st.release_ask(rel),
            final(self)@.wf(),
    {
        proof {
            lemma_released_narrow(self@.st, rel, now);
            lemma_wf_narrow(self@, self@.st.released(rel, now));
        }
        let (st, ask): (Stage, Ask) = self.st.release(rel, now);
        self.st = st;
        ask
    }

    /// Handles a press of the right button in the main window.
    pub fn right_button(&mut self, hit: RightHit)
        requires
            old(self)@.wf(),
            hit matches RightHit::Tab(i) ==> i < old(self)@.tabs.len(),
        ensures
            final(self)@ == old(self)@.right_pressed(hit),
            final(self)@.wf(),
    {
        proof {
            reveal(AppView::right_pressed);
        }
        if self.st.timers.slide_anim.is_some() || self.st.ui.confirm_quit
            || self.st.ui.confirm_close.is_some() || self.st.ui.help_open
            || self.st.ui.palette_open || self.tabs.len() == 0 {
            return;
        }
        match hit {
            RightHit::Tab(i) => {
                self.open_tab_menu(i);
            },
            RightHit::Strip => {},
            RightHit::Grid => {
                self.open_menu();
            },
        }
    }

    fn open_tab_menu(&mut self, i: usize)
        requires
            old(self)@.wf(),
            i < old(self)@.tabs.len(),
        ensures
            ({
                let v = old(self)@.renamed();
                final(self)@ == (AppView {
                    st: v.st.tab_menu_opened(i, old(self)@.tabs.len()),
                    ..v
                })
            }),
            final(self)@.wf(),
    {
        self.commit_rename();
        let n: usize = self.tabs.len();
        proof {
            lemma_tab_menu_wf(self@, i, n as nat);
        }
        self.st = (Stage {
            ui: Overlays {
                help_open: false,
                context_menu: false,
                menu_hover: None,
                tab_menu: Some(i),
                tab_menu_hover: None,
                tab_menu_detach: n >= 2,
                ..self.st.ui
            },
            ..self.st
        }).paint_main();
    }

    fn open_menu(&mut self)
        requires
            old(self)@.wf(),
        ensures
            ({
                let v = old(self)@.renamed();
                final(self)@ == (AppView { st: v.st.menu_opened(), ..v })
            }),
            final(self)@.wf(),
    {
        self.commit_rename();
        proof {
            lemma_narrow(self@.st, self@.st.menu_opened());
            lemma_wf_narrow(self@, self@.st.menu_opened());
        }
        self.st = (Stage {
            ui: Overlays {
                help_open: false,
                tab_menu: None,
                tab_menu_hover: None,
                tab_menu_detach: false,
                context_menu: true,
                menu_hover: None,
                ..self.st.ui
            },
            ..self.st
        }).paint_main();
    }

    /// What a press of the middle button in the main window asks for: it
    /// pastes over the grid, unless something lies over the grid or the
    /// button belongs to the program.
    pub fn middle_button(&self, over_grid: bool, mouse_mode: bool, shift: bool) -> (r: Ask)
        ensures
            r@ == if self@.st.middle_blocked() || self@.tabs.len() == 0 || !over_grid || (mouse_mode
                && !shift) {
                AskView::Nothing
            } else {
                AskView::PasteClipboard
            },
    {
        if self.st.timers.slide_anim.is_some() || self.st.ui.palette_open || self.st.modal_open()
            || self.tabs.len() == 0 || !over_grid || (mouse_mode && !shift) {
            Ask::Nothing
        } else {
            Ask::PasteClipboard
        }
    }

    /// Who takes the wheel in the main window.
    pub fn wheel_target(&self) -> (r: WheelOwner)
        ensures
            r == self@.wheel_owner(),
    {
        proof {
            reveal(hint_view);
        }
        if self.tabs.len() == 0 || self.hint.is_some() || self.st.ui.copy_mode.is_some() {
            WheelOwner::Nobody
        } else if self.st.ui.palette_open {
            WheelOwner::Palette
        } else {
            WheelOwner::Grid
        }
    }

    /// The wheel turned by `step` rows over the palette.
    pub fn palette_wheel(&mut self, step: i64)
        requires
            old(self)@.wf(),
        ensures
            final(self)@ == if step == 0 {
                old(self)@
            } else {
                old(self)@.palette_moved(step as int)
            },
            final(self)@.wf(),
    {
        if step == 0 {
            return;
        }
        self.palette_move(step);
        self.st = self.st.paint_main();
        proof {
            let v = AppView { palette: old(self)@.palette.moved(step as int), ..old(self)@ };
            lemma_narrow(v.st, v.st.paint_main());
            lemma_wf_narrow(v, v.st.paint_main());
        }
    }

    /// The wheel turned by `w.lines` whole lines over the grid.
    pub fn grid_wheel(&mut self, w: Wheel) -> (r: Ask)
        requires
            old(self)@.wf(),
        ensures
            r@ == w.ask(),
            final(self)@ == if r@ is ScrollLines {
                AppView { st: old(self)@.st.relink_and_paint(), ..old(self)@ }
            } else {
                old(self)@
            },
            final(self)@.wf(),
    {
        let ask: Ask = w.decide();
        if let Ask::ScrollLines(_) = ask {
            proof {
                lemma_narrow(self@.st, self@.st.relink_and_paint());
                lemma_wf_narrow(self@, self@.st.relink_and_paint());
            }
            self.st = self.st.relink_and_paint();
        }
        ask
    }
}

proof fn lemma_tab_menu_wf(v: AppView, i: usize, tabs: nat)
    requires
        v.wf(),
        i < v.tabs.len(),
    ensures
        (AppView { st: v.st.tab_menu_opened(i, tabs), ..v }).wf(),
{
}

/// Who takes the wheel.
#[derive(Debug, Clone, Copy, PartialEq, Eq, Structural)]
pub enum WheelOwner {
    Nobody,
    Palette,
    Grid,
}

/// A turn of the wheel over the grid.
#[derive(Debug, Clone, Copy)]
pub struct Wheel {
    /// Whole lines, upwards where they are positive.
    pub lines: i32,
    pub over_scrollbar: bool,
    /// The program reads the mouse.
    pub mouse_mode: bool,
    /// The program has taken the whole screen.
    pub alt_screen: bool,
    /// The program wants the wheel as arrow keys there.
    pub alternate_scroll: bool,
}

/// `n` kept between `lo` and `hi`.
pub open spec fn bounded(n: int, lo: int, hi: int) -> int {
    if n < lo {
        lo
    } else if n > hi {
        hi
    } else {
        n
    }
}

/// How many lines `lines` are, whichever way.
pub open spec fn magnitude(lines: i32) -> int {
    if lines < 0 {
        -lines
    } else {
        lines as int
    }
}

impl Wheel {
    /// What the turn asks for: reports to a program that reads the mouse, one
    /// for three lines; arrow keys to a pager, one for each line; else the
    /// history scrolls. Over the scroll bar the history always scrolls.
    pub open spec fn ask(self) -> AskView {
        let n = magnitude(self.lines);
        if self.lines == 0 {
            AskView::Nothing
        } else if self.mouse_mode && !self.over_scrollbar {
            AskView::Report(
                if self.lines > 0 {
                    MouseReport::WheelUp
                } else {
                    MouseReport::WheelDown
                },
                bounded((n + 2) / 3, 1, 8) as u32,
            )
        } else if !self.over_scrollbar && self.alt_screen && self.alternate_scroll {
            AskView::Arrows(self.lines > 0, bounded(n, 1, 12) as u32)
        } else {
            AskView::ScrollLines(self.lines)
        }
    }

    /// Decides what the turn asks for.
    pub fn decide(self) -> (r: Ask)
        ensures
            r@ == self.ask(),
    {
        if self.lines == 0 {
            return Ask::Nothing;
        }
        let n: i64 = if self.lines < 0 {
            -(self.lines as i64)
        } else {
            self.lines as i64
        };
        if self.mouse_mode && !self.over_scrollbar {
            let report: MouseReport = if self.lines > 0 {
                MouseReport::WheelUp
            } else {
                MouseReport::WheelDown
            };
            let k: i64 = (n + 2) / 3;
            let times: u32 = if k < 1 {
                1
            } else if k > 8 {
                8
            } else {
                k as u32
            };
            Ask::Report(report, times)
        } else if !self.over_scrollbar && self.alt_screen && self.alternate_scroll {
            let times: u32 = if n > 12 {
                12
            } else {
                n as u32
            };
            Ask::Arrows(self.lines > 0, times)
        } else {
            Ask::ScrollLines(self.lines)
        }
    }
}

/// However far the wheel turns, a program is sent between one and eight
/// reports, and a pager between one and twelve arrow keys.
pub proof fn law_wheel_is_bounded(w: Wheel)
    ensures
        w.ask() matches AskView::Report(_, n) ==> 1 <= n <= 8,
        w.ask() matches AskView::Arrows(_, n) ==> 1 <= n <= 12,
{
}

/// The middle button pastes nothing into a shell that a popup, the help text,
/// a menu or the palette covers.
pub proof fn law_overlay_blocks_middle(s: Stage)
    requires
        s.modal() || s.ui.palette_open,
    ensures
        s.middle_blocked(),
{
}

/// A tab that is torn off is detached where it is let go; a selection ends; a
/// program that had the press has the release; anything else asks nothing.
pub proof fn law_release_asks(s: Stage, r: Release, now: u64)
    ensures
        ({
            let torn = s.pointer.tab_drag is Some && (s.pointer.tab_drag->0).tearing;
            let ask = s.release_ask(r);
            &&& torn ==> ask == AskView::DetachHere((s.pointer.tab_drag->0).idx as int)
            &&& torn ==> s.released(r, now).pointer.tab_drag is None
            &&& torn && s.presence.main_window is Some ==> s.released(r, now).due.cursor == Some(
                CursorIcon::Default,
            )
            &&& !torn && s.pointer.selecting ==> ask == AskView::EndSelection && s.released(
                r,
                now,
            ).due.paint_main
            &&& !torn && !s.pointer.selecting && !s.pointer.dragging_scrollbar && s.pointer.grabbed
                && r.mouse_mode ==> ask == AskView::Report(MouseReport::LeftRelease, 1)
            &&& !torn && !s.pointer.selecting && (s.pointer.dragging_scrollbar || !r.mouse_mode)
                ==> ask == AskView::Nothing
        }),
{
}

/// A drag that a program swallowed shows how to select instead, for three and
/// a half seconds in this window and not again for twenty-five.
pub proof fn law_swallowed_drag_shows_hint(s: Stage, w: u64, now: u64)
    requires
        s.presence.main_window == Some(w),
        s.pointer.shift_hint_cooldown matches Some(t) ==> t <= now,
        now <= crate::presence::LAST_INSTANT,
    ensures
        s.pointer.grabbed ==> ({
            let h = s.hinted(true, now);
            &&& h.pointer.shift_hint_until == Some(((now + 3_500_000_000) as u64, w))
            &&& h.pointer.shift_hint_cooldown == Some((now + 25_000_000_000) as u64)
            &&& h.due.paint_main
        }),
        s.hinted(false, now) == s,
        !s.pointer.grabbed ==> s.hinted(true, now) == s,
{
}

/// The wheel goes to a program that reads the mouse, by notches of three lines;
/// else to a pager as arrow keys; else it scrolls the history. Up is up.
pub proof fn law_wheel_goes(w: Wheel)
    ensures
        ({
            let n = if w.lines < 0 {
                -(w.lines as int)
            } else {
                w.lines as int
            };
            let program = w.mouse_mode && !w.over_scrollbar;
            let pager = !w.mouse_mode && !w.over_scrollbar && w.alt_screen && w.alternate_scroll;
            &&& w.lines == 0 ==> w.ask() == AskView::Nothing
            &&& w.lines > 0 && program ==> w.ask() is Report && w.ask()->Report_0
                == MouseReport::WheelUp
            &&& w.lines < 0 && program ==> w.ask() is Report && w.ask()->Report_0
                == MouseReport::WheelDown
            &&& w.lines != 0 && program && n <= 24 ==> 3 * (w.ask()->Report_1 - 1) < n <= 3
                * w.ask()->Report_1
            &&& w.lines != 0 && program && n > 24 ==> w.ask()->Report_1 == 8
            &&& w.lines != 0 && pager && n <= 12 ==> w.ask() == AskView::Arrows(
                w.lines > 0,
                n as u32,
            )
            &&& w.lines != 0 && pager && n > 12 ==> w.ask() == AskView::Arrows(w.lines > 0, 12)
            &&& w.lines != 0 && !program && !pager ==> w.ask() == AskView::ScrollLines(w.lines)
        }),
{
}

/// The right button opens the menu of the tab it hits, or that of the grid, and
/// never both; it ends a rename, and does nothing over the rest of the strip or
/// under something that is open.
pub proof fn law_right_button_opens(v: AppView, hit: RightHit)
    ensures
        ({
            let u = v.st.ui;
            let blocked = v.st.timers.slide_anim is Some || u.confirm_quit || u.confirm_close is Some
                || u.help_open || u.palette_open || v.tabs.len() == 0;
            let after = v.right_pressed(hit);
            &&& blocked || hit == RightHit::Strip ==> after == v
            &&& !blocked && hit == RightHit::Grid ==> after.st.ui.context_menu
                && after.st.ui.tab_menu is None && after.st.ui.renaming is None
                && after.st.due.paint_main
            &&& !blocked ==> (hit matches RightHit::Tab(i) ==> after.st.ui.tab_menu == Some(i)
                && !after.st.ui.context_menu && after.st.ui.tab_menu_detach == (v.tabs.len() >= 2)
                && after.st.ui.renaming is None && after.st.due.paint_main)
            &&& after.active == v.active && after.tabs.len() == v.tabs.len()
        }),
{
    reveal(AppView::right_pressed);
}

/// Whose the wheel is: nobody's while labels or copy mode are on, the open
/// palette's, and else the grid's.
pub proof fn law_wheel_owner(v: AppView)
    ensures
        v.tabs.len() == 0 || v.hint is Some || v.st.ui.copy_mode is Some ==> v.wheel_owner()
            == WheelOwner::Nobody,
        v.tabs.len() > 0 && v.hint is None && v.st.ui.copy_mode is None && v.st.ui.palette_open
            ==> v.wheel_owner() == WheelOwner::Palette,
        v.tabs.len() > 0 && v.hint is None && v.st.ui.copy_mode is None && !v.st.ui.palette_open
            ==> v.wheel_owner() == WheelOwner::Grid,
{
}

/// The middle button is blocked by anything that lies over the grid, and by
/// nothing else.
pub proof fn law_middle_button_blocked(s: Stage)
    ensures
        s.middle_blocked() <==> s.timers.slide_anim is Some || s.ui.palette_open
            || s.ui.confirm_quit || s.ui.confirm_close is Some || s.ui.help_open
            || s.ui.context_menu || s.ui.tab_menu is Some,
{
}

/// The menu of the grid opens alone: the help and the menu of a tab give way,
/// and no row of it is lit yet.
pub proof fn law_grid_menu_opens_alone(s: Stage)
    ensures
        s.menu_opened().ui.context_menu,
        !s.menu_opened().ui.help_open,
        s.menu_opened().ui.tab_menu is None,
        s.menu_opened().ui.tab_menu_hover is None,
        !s.menu_opened().ui.tab_menu_detach,
        s.menu_opened().ui.menu_hover is None,
        s.menu_opened().due.paint_main,
        s.menu_opened().ui.palette_open == s.ui.palette_open,
{
}

} // verus!
