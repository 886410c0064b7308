//! What follows once a request has been carried out and its outcome is known.

use vstd::prelude::*;

use crate::state::{App, AppView, DetachedUi, Stage};
use crate::tabs::lemma_keep;
use crate::text::{printable_part, push_printable};

verus! {

/// How an attempt to use the selected text ended.
#[derive(Debug, Clone, Copy, PartialEq, Eq, Structural)]
pub enum Copied {
    /// The user asked for the copy, and text was copied.
    Asked,
    /// A drag ended, and the text that it selected was copied.
    Dragged,
    /// A drag ended, and it had selected nothing.
    Clicked,
    /// The user asked for a copy, and nothing was selected.
    Nothing,
}

impl Copied {
    /// What is selected does not stay so: an explicit copy leaves no highlight,
    /// and a click drops what was selected. A drag keeps its highlight.
    pub open spec fn drops(self) -> bool {
        self is Asked || self is Clicked
    }
}

/// How the copy ended: `dragged` tells that a drag ended, else the user asked
/// for it; `text` is what was selected.
pub fn copied(dragged: bool, text: Option<&str>) -> (r: Copied)
    ensures
        r == match (dragged, text is Some && text->0@.len() > 0) {
            (true, true) => Copied::Dragged,
            (true, false) => Copied::Clicked,
            (false, true) => Copied::Asked,
            (false, false) => Copied::Nothing,
        },
{
    let some: bool = match text {
        Some(t) => !t.is_empty(),
        None => false,
    };
    if dragged {
        if some {
            Copied::Dragged
        } else {
            Copied::Clicked
        }
    } else if some {
        Copied::Asked
    } else {
        Copied::Nothing
    }
}

/// The part of pasted text that a search takes.
pub fn searchable(text: &str) -> (r: String)
    ensures
        r@ == printable_part(text@),
{
    let mut s: String = String::new();
    let _some: bool = push_printable(&mut s, text);
    proof {
        assert(Seq::<char>::empty() + printable_part(text@) =~= printable_part(text@));
    }
    s
}

impl AppView {
    /// The selection in the main window was copied, or not.
    pub open spec fn selection_copied(self, how: Copied) -> AppView {
        if how.drops() {
            AppView { st: self.st.clear_selection(self.active_id()).paint_main(), ..self }
        } else {
            self
        }
    }

    /// The main window's view jumped to another prompt, where there was one.
    pub open spec fn prompt_jumped(self, moved: bool) -> AppView {
        if moved {
            AppView { st: self.st.relink_and_paint(), ..self }
        } else {
            self
        }
    }

    /// The selection in the detached window at `pos` was copied, or not.
    pub open spec fn window_copied(self, pos: int, how: Copied) -> AppView {
        if how.drops() {
            let v = AppView {
                st: self.st.clear_selection(Some(self.detached[pos].tab.id)),
                ..self
            };
            v.with_ui(pos, self.detached[pos].ui.painted())
        } else {
            self
        }
    }

    /// The view of the detached window at `pos` jumped to another prompt, where
    /// there was one.
    pub open spec fn window_jumped(self, pos: int, moved: bool) -> AppView {
        if moved {
            self.with_ui(pos, self.detached[pos].ui.relinked().painted())
        } else {
            self
        }
    }
}

impl App {
    /// Goes on when the selection in the main window was copied, or not.
    pub fn selection_copied(&mut self, how: Copied)
        requires
            old(self)@.wf(),
        ensures
            final(self)@ == old(self)@.selection_copied(how),
            final(self)@.wf(),
    {
        match how {
            Copied::Asked | Copied::Clicked => {
                let id: Option<u64> = self.active_tab_id();
                let st: Stage = self.st.clear_selection(id).paint_main();
                proof {
                    lemma_keep(self@.st, st);
                }
                self.put_stage(st);
            },
            Copied::Dragged | Copied::Nothing => {},
        }
    }

    /// Goes on when the main window's view was sent to another prompt; `moved`
    /// tells that there was one.
    pub fn prompt_jumped(&mut self, moved: bool)
        requires
            old(self)@.wf(),
        ensures
            final(self)@ == old(self)@.prompt_jumped(moved),
            final(self)@.wf(),
    {
        if moved {
            let st: Stage = self.st.relink_and_paint();
            proof {
                lemma_keep(self@.st, st);
            }
            self.put_stage(st);
        }
    }

    /// Goes on when the selection in the detached window at `pos` was copied,
    /// or not; nothing where there is no such window.
    pub fn window_copied(&mut self, pos: usize, how: Copied)
        requires
            old(self)@.wf(),
        ensures
            final(self)@ == if pos < old(self)@.detached.len() {
                old(self)@.window_copied(pos as int, how)
            } else {
                old(self)@
            },
            final(self)@.wf(),
    {
        if pos >= self.detached.len() {
            return;
        }
        match how {
            Copied::Asked | Copied::Clicked => {
                assert(self@.detached[pos as int] == self.detached@[pos as int]@);
                let st: Stage = self.st.clear_selection(Some(self.detached[pos].tab.id));
                proof {
                    lemma_keep(self@.st, st);
                }
                self.put_stage(st);
                let ui: DetachedUi = self.ui_at(pos).painted();
                self.put_ui(pos, ui);
            },
            Copied::Dragged | Copied::Nothing => {},
        }
    }

    /// Goes on when the view of the detached window at `pos` was sent to
    /// another prompt; nothing where there is no such window.
    pub fn window_jumped(&mut self, pos: usize, moved: bool)
        requires
            old(self)@.wf(),
        ensures
            final(self)@ == if pos < old(self)@.detached.len() {
                old(self)@.window_jumped(pos as int, moved)
            } else {
                old(self)@
            },
            final(self)@.wf(),
    {
        if moved && pos < self.detached.len() {
            let ui: DetachedUi = self.ui_at(pos).relinked().painted();
            self.put_ui(pos, ui);
        }
    }
}

/// A drag that selected text keeps its highlight, and an attempt to copy
/// nothing changes nothing.
pub proof fn law_drag_keeps_highlight(v: AppView)
    ensures
        v.selection_copied(Copied::Dragged) == v,
        v.selection_copied(Copied::Nothing) == v,
{
}

/// A selection that was copied because it was asked for, or a click that
/// selected nothing, leaves no highlight in the tab it was in, and that shows.
pub proof fn law_copied_selection_is_dropped(v: AppView, how: Copied, pos: int)
    requires
        how is Asked || how is Clicked,
    ensures
        0 <= v.active < v.tabs.len() ==> v.selection_copied(how).st.due.selection_clear == Some(
            v.tabs[v.active].id,
        ),
        v.selection_copied(how).st.due.paint_main,
        v.selection_copied(how).tabs == v.tabs,
        0 <= pos < v.detached.len() ==> v.window_copied(pos, how).st.due.selection_clear == Some(
            v.detached[pos].tab.id,
        ) && v.window_copied(pos, how).detached[pos].ui.paint,
{
}

/// A view that jumped to a prompt is shown and searched for links; one that did
/// not is left alone. The same holds of a detached window.
pub proof fn law_jump_is_shown(v: AppView, pos: int)
    requires
        0 <= pos < v.detached.len(),
    ensures
        v.prompt_jumped(true).st.due.paint_main,
        v.prompt_jumped(true).st.due.relink,
        v.prompt_jumped(false) == v,
        v.window_jumped(pos, true).detached[pos].ui.paint,
        v.window_jumped(pos, true).detached[pos].ui.relink,
        v.window_jumped(pos, true).st == v.st,
        v.window_jumped(pos, false) == v,
        v.window_copied(pos, Copied::Dragged) == v,
        v.window_copied(pos, Copied::Nothing) == v,
{
}

} // verus!
