//! The settings that the settings window and the configuration file set.

use vstd::prelude::*;

use crate::effect::SummonEffect;
use crate::mode::WindowMode;
use crate::presence::{Env, LAST_INSTANT, SETTLE_FRAMES};
use crate::state::{
    detached_views, map_uis, App, AppView, Detached, DetachedUi, DetachedView, Due, Panel, Prefs,
    Presence, Stage, TextPrefsView, Timers,
};
use crate::tabs::{lemma_keep, lemma_narrow_trans, lemma_wf_frame, lemma_wf_narrow};

verus! {

/// The rows that the open list of themes shows at once.
pub const MAX_THEME_ROWS: usize = 9;

/// The rows that the list of terminal fonts shows at once.
pub const MAX_FONT_ROWS: usize = 5;

/// The rows that the list of fonts for bars and menus shows at once.
pub const MAX_UI_FONT_ROWS: usize = 4;

/// The first row of a list of `n` entries, of which `rows` show, at its end.
pub open spec fn last_top(n: int, rows: int) -> int {
    if n > rows {
        n - rows
    } else {
        0
    }
}

/// A list scrolled up by one row.
pub open spec fn row_up(top: int) -> int {
    if top > 0 {
        top - 1
    } else {
        0
    }
}

/// A list of `n` entries, of which `rows` show, scrolled down by one row.
pub open spec fn row_down(top: int, n: int, rows: int) -> int {
    if top + 1 < last_top(n, rows) {
        top + 1
    } else {
        last_top(n, rows)
    }
}

/// The first row of the last page of a list.
pub fn max_scroll(n: usize, rows: usize) -> (r: usize)
    ensures
        r == last_top(n as int, rows as int),
{
    if n > rows {
        n - rows
    } else {
        0
    }
}

pub(crate) fn scroll_up(top: usize) -> (r: usize)
    ensures
        r == row_up(top as int),
{
    if top > 0 {
        top - 1
    } else {
        0
    }
}

pub(crate) fn scroll_down(top: usize, n: usize, rows: usize) -> (r: usize)
    ensures
        r == row_down(top as int, n as int, rows as int),
{
    let last: usize = max_scroll(n, rows);
    if top < last && top + 1 < last {
        top + 1
    } else {
        last
    }
}

/// Scrolling down never leaves blank rows at the end of a list.
pub proof fn law_scroll_stays_full(top: int, n: int, rows: int)
    requires
        0 <= top,
        0 <= n,
        0 <= rows,
    ensures
        0 <= row_down(top, n, rows) <= last_top(n, rows),
        rows <= n ==> row_down(top, n, rows) + rows <= n,
{
}

impl Stage {
    /// Both the main and the settings window repaint.
    pub open spec fn spec_paint_both(self) -> Stage {
        Stage { due: Due { paint_main: true, paint_settings: true, ..self.due }, ..self }
    }

    /// Both the main and the settings window repaint.
    #[verifier::when_used_as_spec(spec_paint_both)]
    pub fn paint_both(self) -> (r: Stage)
        ensures
            r == self.spec_paint_both(),
    {
        Stage { due: Due { paint_main: true, paint_settings: true, ..self.due }, ..self }
    }

    /// Another summon effect is chosen, and shows itself once.
    #[verifier::opaque]
    pub open spec fn effect_chosen(self, effect: SummonEffect) -> Stage {
        if self.prefs.summon_effect == effect {
            self
        } else {
            (Stage {
                prefs: Prefs { summon_effect: effect, ..self.prefs },
                timers: Timers { summon_pending: true, ..self.timers },
                ..self
            }).persist().paint_both()
        }
    }

    /// Chooses a summon effect.
    pub fn set_summon_effect(self, effect: SummonEffect) -> (r: Stage)
        ensures
            r == self.effect_chosen(effect),
    {
        proof {
            reveal(Stage::effect_chosen);
        }
        if self.prefs.summon_effect == effect {
            return self;
        }
        (Stage {
            prefs: Prefs { summon_effect: effect, ..self.prefs },
            timers: Timers { summon_pending: true, ..self.timers },
            ..self
        }).persist().paint_both()
    }

    /// A floating window: it neither slides nor docks any more.
    pub open spec fn floated(self) -> Stage {
        Stage {
            prefs: Prefs { window_mode: WindowMode::Center, ..self.prefs },
            timers: Timers { slide_anim: None, pending_dock_frames: 0, ..self.timers },
            ..self
        }
    }

    /// A docked window: it forgets where it floated, and one that is shown
    /// docks at once.
    pub open spec fn docked(self, now: u64) -> Stage {
        let shown = self.presence.visible;
        Stage {
            prefs: Prefs { window_mode: WindowMode::Dropdown, ..self.prefs },
            presence: Presence { last_pos: None, ..self.presence },
            timers: Timers {
                pending_dock_frames: if shown {
                    SETTLE_FRAMES
                } else {
                    self.timers.pending_dock_frames
                },
                slide_anim: if shown {
                    Some(now)
                } else {
                    self.timers.slide_anim
                },
                ..self.timers
            },
            due: Due {
                redock: self.due.redock || (shown && self.presence.main_window is Some),
                ..self.due
            },
            ..self
        }
    }

    /// Another window mode is chosen.
    #[verifier::opaque]
    pub open spec fn mode_chosen(self, mode: WindowMode, now: u64) -> Stage {
        if self.prefs.window_mode == mode {
            self
        } else {
            (match mode {
                WindowMode::Center => self.floated(),
                WindowMode::Dropdown => self.docked(now),
            }).persist().paint_both()
        }
    }

    fn float(self) -> (r: Stage)
        ensures
            r == self.floated(),
    {
        Stage {
            prefs: Prefs { window_mode: WindowMode::Center, ..self.prefs },
            timers: Timers { slide_anim: None, pending_dock_frames: 0, ..self.timers },
            ..self
        }
    }

    fn dock(self, now: u64) -> (r: Stage)
        ensures
            r == self.docked(now),
    {
        let shown: bool = self.presence.visible;
        let frames: u8 = if shown {
            SETTLE_FRAMES
        } else {
            self.timers.pending_dock_frames
        };
        let slide_anim: Option<u64> = if shown {
            Some(now)
        } else {
            self.timers.slide_anim
        };
        Stage {
            prefs: Prefs { window_mode: WindowMode::Dropdown, ..self.prefs },
            presence: Presence { last_pos: None, ..self.presence },
            timers: Timers { pending_dock_frames: frames, slide_anim, ..self.timers },
            due: Due {
                redock: self.due.redock || (shown && self.presence.main_window.is_some()),
                ..self.due
            },
            ..self
        }
    }

    /// Chooses a window mode.
    pub fn set_window_mode(self, mode: WindowMode, now: u64) -> (r: Stage)
        ensures
            r == self.mode_chosen(mode, now),
    {
        proof {
            reveal(Stage::mode_chosen);
        }
        if self.prefs.window_mode == mode {
            return self;
        }
        match mode {
            WindowMode::Center => self.float().persist().paint_both(),
            WindowMode::Dropdown => self.dock(now).persist().paint_both(),
        }
    }

    /// The tab strip goes to the bottom, or to the top.
    #[verifier::opaque]
    pub open spec fn bar_moved(self, bottom: bool) -> Stage {
        if self.prefs.tab_bar_bottom == bottom {
            self
        } else {
            (Stage {
                prefs: Prefs { tab_bar_bottom: bottom, ..self.prefs },
                ..self
            }).persist().paint_both()
        }
    }

    /// Puts the tab strip at the bottom, or at the top.
    pub fn set_tab_bar_bottom(self, bottom: bool) -> (r: Stage)
        ensures
            r == self.bar_moved(bottom),
    {
        proof {
            reveal(Stage::bar_moved);
        }
        if self.prefs.tab_bar_bottom == bottom {
            return self;
        }
        (Stage {
            prefs: Prefs { tab_bar_bottom: bottom, ..self.prefs },
            ..self
        }).persist().paint_both()
    }

    /// Every terminal, detached ones too, keeps this many lines.
    #[verifier::opaque]
    pub open spec fn scrollback_limited(self, lines: usize) -> Stage {
        if self.prefs.scrollback_lines == lines {
            self
        } else {
            (Stage {
                prefs: Prefs { scrollback_lines: lines, ..self.prefs },
                due: Due { rescroll: true, paint_detached: true, ..self.due },
                ..self
            }).persist().paint_both()
        }
    }

    /// Sets how many lines a terminal keeps.
    pub fn set_scrollback_lines(self, lines: usize) -> (r: Stage)
        ensures
            r == self.scrollback_limited(lines),
    {
        proof {
            reveal(Stage::scrollback_limited);
        }
        if self.prefs.scrollback_lines == lines {
            return self;
        }
        (Stage {
            prefs: Prefs { scrollback_lines: lines, ..self.prefs },
            due: Due { rescroll: true, paint_detached: true, ..self.due },
            ..self
        }).persist().paint_both()
    }

    /// A shown, docked window docks anew, with the size that was set.
    #[verifier::opaque]
    pub open spec fn redocked(self) -> Stage {
        if self.presence.visible && self.prefs.window_mode == WindowMode::Dropdown
            && self.presence.main_window is Some {
            (Stage {
                timers: Timers { pending_dock_frames: SETTLE_FRAMES, ..self.timers },
                due: Due { redock: true, ..self.due },
                ..self
            }).paint_main()
        } else {
            self
        }
    }

    /// Docks a shown, docked window anew.
    pub fn redock_if_dropdown(self) -> (r: Stage)
        ensures
            r == self.redocked(),
    {
        proof {
            reveal(Stage::redocked);
        }
        if self.presence.visible && self.prefs.window_mode == WindowMode::Dropdown
            && self.presence.main_window.is_some() {
            (Stage {
                timers: Timers { pending_dock_frames: SETTLE_FRAMES, ..self.timers },
                due: Due { redock: true, ..self.due },
                ..self
            }).paint_main()
        } else {
            self
        }
    }

    /// The list of themes opens with the chosen one in view, or closes.
    #[verifier::opaque]
    pub open spec fn themes_toggled(self, themes: usize) -> Stage {
        let opens = !self.panel.theme_dropdown_open;
        let start = if self.panel.theme_idx >= MAX_THEME_ROWS / 2 {
            self.panel.theme_idx - MAX_THEME_ROWS / 2
        } else {
            0
        };
        let last = last_top(themes as int, MAX_THEME_ROWS as int);
        Stage {
            panel: Panel {
                theme_dropdown_open: opens,
                theme_scroll_offset: if !opens {
                    self.panel.theme_scroll_offset
                } else if start < last {
                    start as usize
                } else {
                    last as usize
                },
                ..self.panel
            },
            ..self
        }
    }

    /// Opens or closes the list of themes.
    pub fn toggle_themes(self, themes: usize) -> (r: Stage)
        ensures
            r == self.themes_toggled(themes),
    {
        proof {
            reveal(Stage::themes_toggled);
        }
        let opens: bool = !self.panel.theme_dropdown_open;
        let start: usize = if self.panel.theme_idx >= MAX_THEME_ROWS / 2 {
            self.panel.theme_idx - MAX_THEME_ROWS / 2
        } else {
            0
        };
        let last: usize = max_scroll(themes, MAX_THEME_ROWS);
        let top: usize = if !opens {
            self.panel.theme_scroll_offset
        } else if start < last {
            start
        } else {
            last
        };
        Stage {
            panel: Panel { theme_dropdown_open: opens, theme_scroll_offset: top, ..self.panel },
            ..self
        }
    }
}

proof fn lemma_effect_keep(s: Stage, effect: SummonEffect)
    ensures
        s.narrows_to(s.effect_chosen(effect)),
{
    reveal(Stage::effect_chosen);
    lemma_keep(s, s.effect_chosen(effect));
}

proof fn lemma_float_keep(s: Stage)
    ensures
        s.narrows_to(s.floated().persist().paint_both()),
{
    lemma_keep(s, s.floated().persist().paint_both());
}

proof fn lemma_dock_keep(s: Stage, now: u64)
    ensures
        s.narrows_to(s.docked(now).persist().paint_both()),
{
    lemma_keep(s, s.docked(now).persist().paint_both());
}

proof fn lemma_self_keep(s: Stage)
    ensures
        s.narrows_to(s),
{
    lemma_keep(s, s);
}

proof fn lemma_mode_keep(s: Stage, mode: WindowMode, now: u64)
    ensures
        s.narrows_to(s.mode_chosen(mode, now)),
{
    reveal(Stage::mode_chosen);
    lemma_float_keep(s);
    lemma_dock_keep(s, now);
    lemma_self_keep(s);
}

proof fn lemma_bar_keep(s: Stage, bottom: bool)
    ensures
        s.narrows_to(s.bar_moved(bottom)),
{
    reveal(Stage::bar_moved);
    lemma_keep(s, s.bar_moved(bottom));
}

proof fn lemma_scrollback_keep(s: Stage, lines: usize)
    ensures
        s.narrows_to(s.scrollback_limited(lines)),
{
    reveal(Stage::scrollback_limited);
    lemma_keep(s, s.scrollback_limited(lines));
}

proof fn lemma_redock_keep(s: Stage)
    ensures
        s.narrows_to(s.redocked()),
{
    reveal(Stage::redocked);
    lemma_keep(s, s.redocked());
}

/// None of the setters touches what names a tab.
pub(crate) proof fn lemma_setters_keep(
    s: Stage,
    effect: SummonEffect,
    mode: WindowMode,
    bottom: bool,
    lines: usize,
    now: u64,
)
    ensures
        s.narrows_to(s.effect_chosen(effect)),
        s.narrows_to(s.mode_chosen(mode, now)),
        s.narrows_to(s.bar_moved(bottom)),
        s.narrows_to(s.scrollback_limited(lines)),
        s.narrows_to(s.redocked()),
        s.narrows_to(s),
{
    lemma_effect_keep(s, effect);
    lemma_mode_keep(s, mode, now);
    lemma_bar_keep(s, bottom);
    lemma_scrollback_keep(s, lines);
    lemma_redock_keep(s);
    lemma_self_keep(s);
}

/// The open list of themes shows the chosen one.
pub proof fn law_open_list_shows_theme(s: Stage, themes: usize)
    requires
        s.panel.theme_idx < themes,
        !s.panel.theme_dropdown_open,
    ensures
        ({
            let p = s.themes_toggled(themes).panel;
            &&& p.theme_dropdown_open
            &&& p.theme_scroll_offset <= s.panel.theme_idx < p.theme_scroll_offset + MAX_THEME_ROWS
        }),
{
    reveal(Stage::themes_toggled);
}

/// Choosing what is chosen already changes nothing and writes nothing.
pub proof fn law_same_choice_is_free(s: Stage, now: u64)
    ensures
        s.effect_chosen(s.prefs.summon_effect) == s,
        s.mode_chosen(s.prefs.window_mode, now) == s,
        s.bar_moved(s.prefs.tab_bar_bottom) == s,
        s.scrollback_limited(s.prefs.scrollback_lines) == s,
{
    reveal(Stage::effect_chosen);
    reveal(Stage::mode_chosen);
    reveal(Stage::bar_moved);
    reveal(Stage::scrollback_limited);
}

/// A window that becomes a floating one is not pulled back to the top edge.
pub proof fn law_floating_does_not_dock(s: Stage, now: u64)
    requires
        s.prefs.window_mode == WindowMode::Dropdown,
    ensures
        s.mode_chosen(WindowMode::Center, now).timers.pending_dock_frames == 0,
        s.mode_chosen(WindowMode::Center, now).timers.slide_anim is None,
{
    reveal(Stage::mode_chosen);
}

impl Stage {
    /// The fonts of bars and menus changed: every window draws with the new
    /// ones, and no grid is touched.
    pub open spec fn spec_ui_fonts_changed(self) -> Stage {
        (Stage {
            due: Due { refont: true, paint_detached: true, ..self.due },
            ..self
        }).persist().paint_both()
    }

    /// The fonts of bars and menus changed.
    #[verifier::when_used_as_spec(spec_ui_fonts_changed)]
    pub fn ui_fonts_changed(self) -> (r: Stage)
        ensures
            r == self.spec_ui_fonts_changed(),
    {
        (Stage {
            due: Due { refont: true, paint_detached: true, ..self.due },
            ..self
        }).persist().paint_both()
    }

    /// The terminals' font changed: the main window's grids are fitted.
    #[verifier::opaque]
    pub open spec fn family_changed(self, env: Env) -> Stage {
        (Stage { due: Due { refont: true, ..self.due }, ..self }).reflowed(
            env,
        ).persist().paint_main()
    }

    fn change_family(self, env: &Env) -> (r: Stage)
        ensures
            r == self.family_changed(*env),
    {
        proof {
            reveal(Stage::family_changed);
        }
        (Stage { due: Due { refont: true, ..self.due }, ..self }).reflow(
            env,
        ).persist().paint_main()
    }
}

proof fn lemma_family_keep(s: Stage, env: Env)
    ensures
        s.narrows_to(s.family_changed(env)),
{
    reveal(Stage::family_changed);
    let a = Stage { due: Due { refont: true, ..s.due }, ..s };
    let b = a.reflowed(env);
    assert(a.narrows_to(b)) by {
        lemma_keep(a, b);
    }
    assert(s.narrows_to(a)) by {
        lemma_keep(s, a);
    }
    assert(b.narrows_to(b.persist().paint_main())) by {
        lemma_keep(b, b.persist().paint_main());
    }
    lemma_narrow_trans(s, a, b);
    lemma_narrow_trans(s, b, b.persist().paint_main());
}

pub(crate) proof fn lemma_ui_fonts_keep(s: Stage)
    ensures
        s.narrows_to(s.ui_fonts_changed()),
{
    lemma_keep(s, s.ui_fonts_changed());
}

impl DetachedUi {
    /// A detached window whose font changed: its grid is fitted a little
    /// later, and it repaints now.
    pub open spec fn refamilied(self, at: u64) -> DetachedUi {
        DetachedUi { reflow_pending_at: Some(at), paint: true, ..self }
    }
}

fn refamily_windows(list: &mut Vec<Detached>, at: u64)
    ensures
        detached_views(final(list)@) == Seq::new(
            old(list)@.len(),
            |i: int|
                DetachedView {
                    ui: detached_views(old(list)@)[i].ui.refamilied(at),
                    ..detached_views(old(list)@)[i]
                },
        ),
{
    let ghost v = detached_views(list@);
    let f = |_i: usize, ui: DetachedUi| -> (r: DetachedUi)
        ensures
            r == ui.refamilied(at),
    {
        DetachedUi { reflow_pending_at: Some(at), paint: true, ..ui }
    };
    map_uis(list, f);
    assert(detached_views(list@) =~= Seq::new(
        v.len(),
        |i: int| DetachedView { ui: v[i].ui.refamilied(at), ..v[i] },
    ));
}

impl AppView {
    /// The terminals use the font `name`.
    pub open spec fn font_chosen(self, name: Seq<char>, env: Env) -> AppView {
        let at = (env.now + crate::actions::REFLOW_DELAY) as u64;
        AppView {
            text: TextPrefsView { font_family: name, ..self.text },
            detached: Seq::new(
                self.detached.len(),
                |i: int|
                    DetachedView { ui: self.detached[i].ui.refamilied(at), ..self.detached[i] },
            ),
            st: self.st.family_changed(env),
            ..self
        }
    }

    /// Bars and menus use the font `name`; empty stands for the platform's own.
    pub open spec fn ui_font_chosen(self, name: Seq<char>) -> AppView {
        AppView {
            text: TextPrefsView { ui_font_family: name, ..self.text },
            st: self.st.ui_fonts_changed(),
            ..self
        }
    }
}

proof fn lemma_font_chosen_wf(v: AppView, name: Seq<char>, env: Env)
    requires
        v.wf(),
    ensures
        v.font_chosen(name, env).wf(),
{
    lemma_family_keep(v.st, env);
    lemma_wf_narrow(v, v.st.family_changed(env));
    let a = AppView { st: v.st.family_changed(env), ..v };
    assert(a.st.same_indices(a.st)) by {
        reveal(Stage::same_indices);
    }
    lemma_wf_frame(a, v.font_chosen(name, env));
}

impl App {
    /// Lets the terminals use the font `name`.
    pub fn set_font_family(&mut self, name: String, env: &Env)
        requires
            old(self)@.wf(),
            env.now <= LAST_INSTANT,
        ensures
            final(self)@ == old(self)@.font_chosen(name@, *env),
            final(self)@.wf(),
    {
        proof {
            lemma_font_chosen_wf(self@, name@, *env);
        }
        self.text.font_family = name;
        refamily_windows(&mut self.detached, env.now + crate::actions::REFLOW_DELAY);
        self.st = self.st.change_family(env);
    }

    /// Lets bars and menus use the font `name`.
    pub fn set_ui_font_family(&mut self, name: String)
        requires
            old(self)@.wf(),
        ensures
            final(self)@ == old(self)@.ui_font_chosen(name@),
            final(self)@.wf(),
    {
        proof {
            lemma_ui_fonts_keep(self@.st);
            lemma_wf_narrow(self@, self@.st.ui_fonts_changed());
        }
        self.text.ui_font_family = name;
        self.st = self.st.ui_fonts_changed();
    }

    /// The size of the fonts of bars and menus changed.
    pub fn ui_font_sized(&mut self)
        requires
            old(self)@.wf(),
        ensures
            final(self)@ == (AppView { st: old(self)@.st.ui_fonts_changed(), ..old(self)@ }),
            final(self)@.wf(),
    {
        proof {
            lemma_ui_fonts_keep(self@.st);
            lemma_wf_narrow(self@, self@.st.ui_fonts_changed());
        }
        self.st = self.st.ui_fonts_changed();
    }
}

/// A list scrolls by one row, never past its first row and never further than
/// leaves its last row at the foot.
pub proof fn law_rows_scroll_by_one(top: int, n: int, rows: int)
    requires
        0 <= top,
        0 <= n,
        0 <= rows,
    ensures
        top > 0 ==> row_up(top) == top - 1,
        row_up(0) == 0,
        top + rows < n ==> row_down(top, n, rows) == top + 1,
        top + rows == n ==> row_down(top, n, rows) == top,
        n <= rows ==> row_down(top, n, rows) == 0,
        top + rows < n ==> row_up(row_down(top, n, rows)) == top,
{
}

/// A new summon effect is kept, shown once at the next frame, and written.
pub proof fn law_chosen_effect_is_kept(s: Stage, effect: SummonEffect)
    ensures
        ({
            let r = s.effect_chosen(effect);
            &&& r.prefs.summon_effect == effect
            &&& effect != s.prefs.summon_effect ==> r.timers.summon_pending && r.due.paint_main
                && r.due.paint_settings && (!s.panel.reloading ==> r.due.persist)
            &&& s.panel.reloading ==> r.due.persist == s.due.persist
            &&& (Prefs { summon_effect: s.prefs.summon_effect, ..r.prefs }) == s.prefs
            &&& r.panel == s.panel && r.presence == s.presence && r.ui == s.ui
        }),
{
    reveal(Stage::effect_chosen);
}

/// A new window mode is kept and written. One that docks the window forgets
/// where it floated, and docks a shown one over the next frames.
pub proof fn law_chosen_mode_is_kept(s: Stage, mode: WindowMode, now: u64)
    requires
        mode != s.prefs.window_mode,
    ensures
        ({
            let r = s.mode_chosen(mode, now);
            &&& r.prefs.window_mode == mode
            &&& (Prefs { window_mode: s.prefs.window_mode, ..r.prefs }) == s.prefs
            &&& r.due.paint_main && r.due.paint_settings && (!s.panel.reloading ==> r.due.persist)
            &&& mode == WindowMode::Dropdown ==> r.presence.last_pos is None
            &&& mode == WindowMode::Dropdown && s.presence.visible ==> r.timers.slide_anim == Some(
                now,
            ) && r.timers.pending_dock_frames == 5 && (s.presence.main_window is Some
                ==> r.due.redock)
            &&& mode == WindowMode::Dropdown && !s.presence.visible ==> r.timers.slide_anim
                == s.timers.slide_anim && r.due.redock == s.due.redock
            &&& mode == WindowMode::Center ==> r.presence.last_pos == s.presence.last_pos
                && r.due.redock == s.due.redock
            &&& r.presence.visible == s.presence.visible
        }),
{
    reveal(Stage::mode_chosen);
}

/// The tab bar goes where it was put.
pub proof fn law_bar_is_kept(s: Stage, bottom: bool)
    ensures
        s.bar_moved(bottom).prefs.tab_bar_bottom == bottom,
        bottom != s.prefs.tab_bar_bottom ==> s.bar_moved(bottom).due.paint_main && s.bar_moved(
            bottom,
        ).due.paint_settings && (!s.panel.reloading ==> s.bar_moved(bottom).due.persist),
        s.bar_moved(bottom).bar_moved(s.prefs.tab_bar_bottom).prefs == s.prefs,
        s.bar_moved(bottom).timers == s.timers,
{
    reveal(Stage::bar_moved);
}

/// A new limit of the scrollback is kept and reaches every window.
pub proof fn law_scrollback_is_kept(s: Stage, lines: usize)
    ensures
        s.scrollback_limited(lines).prefs.scrollback_lines == lines,
        lines != s.prefs.scrollback_lines ==> s.scrollback_limited(lines).due.rescroll
            && s.scrollback_limited(lines).due.paint_detached && s.scrollback_limited(
            lines,
        ).due.paint_main && s.scrollback_limited(lines).due.paint_settings && (!s.panel.reloading
            ==> s.scrollback_limited(lines).due.persist),
        s.scrollback_limited(lines).scrollback_limited(s.prefs.scrollback_lines).prefs == s.prefs,
        s.scrollback_limited(lines).timers == s.timers,
{
    reveal(Stage::scrollback_limited);
}

/// Docking anew concerns a shown dropdown window only.
pub proof fn law_redock_needs_shown_dropdown(s: Stage)
    ensures
        s.presence.visible && s.prefs.window_mode == WindowMode::Dropdown && s.presence.main_window
            is Some ==> s.redocked().due.redock && s.redocked().due.paint_main
            && s.redocked().timers.pending_dock_frames == 5,
        !s.presence.visible || s.prefs.window_mode == WindowMode::Center || s.presence.main_window
            is None ==> s.redocked() == s,
{
    reveal(Stage::redocked);
}

/// The list of themes opens centred on the theme in use as far as its ends
/// allow, and closes where it stood.
pub proof fn law_theme_list_opens_around_the_theme(s: Stage, themes: usize)
    ensures
        s.themes_toggled(themes).panel.theme_dropdown_open == !s.panel.theme_dropdown_open,
        s.panel.theme_dropdown_open ==> s.themes_toggled(themes).panel.theme_scroll_offset
            == s.panel.theme_scroll_offset,
        !s.panel.theme_dropdown_open && s.panel.theme_idx < 4 ==> s.themes_toggled(
            themes,
        ).panel.theme_scroll_offset == 0,
        !s.panel.theme_dropdown_open && s.panel.theme_idx >= 4 && s.panel.theme_idx + 5 <= themes
            ==> s.themes_toggled(themes).panel.theme_scroll_offset == s.panel.theme_idx - 4,
        !s.panel.theme_dropdown_open && themes >= 9 && s.panel.theme_idx + 5 > themes
            ==> s.themes_toggled(themes).panel.theme_scroll_offset == themes - 9,
        !s.panel.theme_dropdown_open && themes < 9 ==> s.themes_toggled(
            themes,
        ).panel.theme_scroll_offset == 0,
        s.themes_toggled(themes).panel.theme_idx == s.panel.theme_idx,
        s.themes_toggled(themes).due == s.due,
{
    reveal(Stage::themes_toggled);
}

/// A chosen font family is the one in use from then on; every detached window
/// is painted with it and refits a quarter of a second later.
pub proof fn law_chosen_font_is_used(v: AppView, name: Seq<char>, i: int, env: Env)
    requires
        0 <= i < v.detached.len(),
        env.now <= crate::presence::LAST_INSTANT,
    ensures
        ({
            let w = v.font_chosen(name, env);
            &&& w.text.font_family == name && w.text.ui_font_family == v.text.ui_font_family
            &&& w.text.shell == v.text.shell
            &&& w.st.due.refont && w.st.due.paint_main && (!v.st.panel.reloading
                ==> w.st.due.persist)
            &&& w.detached.len() == v.detached.len()
            &&& w.detached[i].ui.paint && w.detached[i].ui.reflow_pending_at == Some(
                (env.now + 250_000_000) as u64,
            )
            &&& w.detached[i].tab == v.detached[i].tab && w.detached[i].window
                == v.detached[i].window
            &&& w.tabs == v.tabs && w.active == v.active
        }),
{
    reveal(Stage::family_changed);
}

/// A chosen interface font is the one in use from then on, in every window.
pub proof fn law_chosen_ui_font_is_used(v: AppView, name: Seq<char>)
    ensures
        ({
            let w = v.ui_font_chosen(name);
            &&& w.text.ui_font_family == name && w.text.font_family == v.text.font_family
            &&& w.text.shell == v.text.shell
            &&& w.st.due.refont && w.st.due.paint_main && w.st.due.paint_settings
                && w.st.due.paint_detached && (!v.st.panel.reloading ==> w.st.due.persist)
            &&& w.tabs == v.tabs && w.active == v.active && w.detached == v.detached
        }),
{
}

} // verus!
