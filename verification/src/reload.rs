//! Following the configuration on disk without reading back what the
//! application itself wrote.

use vstd::prelude::*;

use std::hash::BuildHasher;

use crate::config::{limit_lines, limit_seconds, Config, ConfigFlags, ConfigView};
use crate::effect::{from_key, SummonEffect};
use crate::mode::{mode_of_key, WindowMode};
use crate::presence::{Env, LAST_INSTANT};
use crate::settings::lemma_setters_keep;
use crate::state::{App, AppView, Due, FxToggles, Panel, Prefs, Stage, TextPrefsView};
use crate::tabs::{lemma_keep, lemma_narrow_trans, lemma_wf_narrow};
use crate::text::str_eq;

verus! {

/// The hash that std's default hasher, with its fixed keys, gives a text.
pub uninterp spec fn text_hash(s: Seq<char>) -> u64;

/// `std::hash::BuildHasher::hash_one` on a string, with the hasher that
/// `DefaultHasher::new` makes: a number that depends on the text alone.
#[verifier::external_body]
fn default_hash(s: &str) -> (r: u64)
    ensures
        r == text_hash(s@),
{
    std::hash::BuildHasherDefault::<std::collections::hash_map::DefaultHasher>::default().hash_one(s)
}

/// The hash by which a configuration text is recognised.
pub fn hash_config_str(s: &str) -> (r: u64)
    ensures
        r == text_hash(s@),
{
    default_hash(s)
}

/// Which of the fractions, and whether the key bindings, of a configuration
/// differ from those in use.
#[derive(Debug, Clone, Copy)]
pub struct Differs {
    pub opacity: bool,
    pub font_size: bool,
    pub ui_font_size: bool,
    pub corner_radius: bool,
    pub dropdown_height: bool,
    pub dropdown_width: bool,
    pub effects: bool,
    pub keys: bool,
}

/// What of a configuration the windowing side takes over.
#[derive(Debug, Clone, Copy, PartialEq, Eq, Structural)]
pub struct Taken {
    pub opacity: bool,
    pub font_size: bool,
    pub ui_font_size: bool,
    pub corner_radius: bool,
    pub dropdown_height: bool,
    pub dropdown_width: bool,
    pub effects: bool,
    pub keys: bool,
    /// Tell every terminal whether programs may read the clipboard.
    pub osc52: bool,
    /// Stop following the configuration.
    pub unwatch: bool,
}

/// Nothing is taken over.
pub open spec fn nothing_taken() -> Taken {
    Taken {
        opacity: false,
        font_size: false,
        ui_font_size: false,
        corner_radius: false,
        dropdown_height: false,
        dropdown_width: false,
        effects: false,
        keys: false,
        osc52: false,
        unwatch: false,
    }
}

fn take_nothing() -> (r: Taken)
    ensures
        r == nothing_taken(),
{
    Taken {
        opacity: false,
        font_size: false,
        ui_font_size: false,
        corner_radius: false,
        dropdown_height: false,
        dropdown_width: false,
        effects: false,
        keys: false,
        osc52: false,
        unwatch: false,
    }
}

fn same_fx(a: FxToggles, b: FxToggles) -> (r: bool)
    ensures
        r == (a == b),
{
    a.crt_enabled == b.crt_enabled && a.crt_animate_roll == b.crt_animate_roll && a.crt_flicker
        == b.crt_flicker && a.crt_jitter == b.crt_jitter && a.caret_flash_enabled
        == b.caret_flash_enabled && a.caret_glow_enabled == b.caret_glow_enabled
}

impl Stage {
    /// What is taken over. What the user is dragging stays theirs.
    pub open spec fn takes(self, d: Differs, f: ConfigFlags) -> Taken {
        Taken {
            opacity: d.opacity && !self.pointer.dragging_slider,
            font_size: d.font_size,
            ui_font_size: d.ui_font_size,
            corner_radius: d.corner_radius && !self.pointer.dragging_radius,
            dropdown_height: d.dropdown_height && !self.pointer.dragging_dropdown,
            dropdown_width: d.dropdown_width && !self.pointer.dragging_dropdown_width,
            effects: self.pointer.active_fx_drag is None && (d.effects || f.fx != self.prefs.fx),
            keys: d.keys,
            osc52: f.osc52_allow_paste != self.prefs.osc52_allow_paste,
            unwatch: !f.hot_reload,
        }
    }

    fn take_over(self, d: Differs, f: ConfigFlags) -> (r: Taken)
        ensures
            r == self.takes(d, f),
    {
        let opacity: bool = d.opacity && !self.pointer.dragging_slider;
        let corner_radius: bool = d.corner_radius && !self.pointer.dragging_radius;
        let dropdown_height: bool = d.dropdown_height && !self.pointer.dragging_dropdown;
        let dropdown_width: bool = d.dropdown_width && !self.pointer.dragging_dropdown_width;
        let other: bool = !same_fx(f.fx, self.prefs.fx);
        let effects: bool = self.pointer.active_fx_drag.is_none() && (d.effects || other);
        let osc52: bool = f.osc52_allow_paste != self.prefs.osc52_allow_paste;
        let unwatch: bool = !f.hot_reload;
        let ghost w = self.takes(d, f);
        assert(opacity == w.opacity);
        assert(corner_radius == w.corner_radius);
        assert(dropdown_height == w.dropdown_height);
        assert(dropdown_width == w.dropdown_width);
        assert(effects == w.effects);
        assert(osc52 == w.osc52);
        assert(unwatch == w.unwatch);
        Taken {
            opacity,
            font_size: d.font_size,
            ui_font_size: d.ui_font_size,
            corner_radius,
            dropdown_height,
            dropdown_width,
            effects,
            keys: d.keys,
            osc52,
            unwatch,
        }
    }

    /// The theme follows, and the opacity where it is taken over.
    #[verifier::opaque]
    pub open spec fn looks_followed(self, theme: Option<usize>, opacity: bool) -> Stage {
        match theme {
            Some(i) if i != self.panel.theme_idx => (Stage {
                panel: Panel { theme_idx: i, ..self.panel },
                ..self
            }).apply_theme(),
            _ => if opacity {
                self.apply_theme()
            } else {
                self
            },
        }
    }

    fn follow_looks(self, theme: Option<usize>, opacity: bool) -> (r: Stage)
        ensures
            r == self.looks_followed(theme, opacity),
    {
        proof {
            reveal(Stage::looks_followed);
        }
        if let Some(i) = theme {
            if i != self.panel.theme_idx {
                return (Stage {
                    panel: Panel { theme_idx: i, ..self.panel },
                    ..self
                }).apply_theme();
            }
        }
        if opacity {
            self.apply_theme()
        } else {
            self
        }
    }

    /// The summon effect follows, without showing itself.
    #[verifier::opaque]
    pub open spec fn effect_followed(self, effect: SummonEffect, corner: bool) -> Stage {
        Stage {
            prefs: Prefs { summon_effect: effect, ..self.prefs },
            due: Due { paint_main: self.due.paint_main || corner, ..self.due },
            ..self
        }
    }

    fn follow_effect(self, effect: SummonEffect, corner: bool) -> (r: Stage)
        ensures
            r == self.effect_followed(effect, corner),
    {
        proof {
            reveal(Stage::effect_followed);
        }
        Stage {
            prefs: Prefs { summon_effect: effect, ..self.prefs },
            due: Due { paint_main: self.due.paint_main || corner, ..self.due },
            ..self
        }
    }

    /// A docked window takes its new size.
    pub open spec fn size_followed(self, changed: bool) -> Stage {
        if changed {
            self.redocked()
        } else {
            self
        }
    }

    fn follow_size(self, changed: bool) -> (r: Stage)
        ensures
            r == self.size_followed(changed),
    {
        if changed {
            self.redock_if_dropdown()
        } else {
            self
        }
    }

    /// The window's mode, its strip and its size follow.
    #[verifier::opaque]
    pub open spec fn shape_followed(
        self,
        mode: WindowMode,
        bottom: bool,
        sized: bool,
        now: u64,
    ) -> Stage {
        self.mode_chosen(mode, now).bar_moved(bottom).size_followed(sized)
    }

    fn follow_shape(self, mode: WindowMode, bottom: bool, sized: bool, now: u64) -> (r: Stage)
        ensures
            r == self.shape_followed(mode, bottom, sized, now),
    {
        proof {
            reveal(Stage::shape_followed);
        }
        self.set_window_mode(mode, now).set_tab_bar_bottom(bottom).follow_size(sized)
    }

    /// The performance display comes or goes.
    #[verifier::opaque]
    pub open spec fn hud_followed(self, show: bool, env: Env) -> Stage {
        if self.prefs.show_perf_hud == show {
            self
        } else {
            (Stage {
                prefs: Prefs { show_perf_hud: show, ..self.prefs },
                ..self
            }).reflowed(env).paint_main()
        }
    }

    fn follow_hud(self, show: bool, env: &Env) -> (r: Stage)
        ensures
            r == self.hud_followed(show, *env),
    {
        proof {
            reveal(Stage::hud_followed);
        }
        if self.prefs.show_perf_hud == show {
            return self;
        }
        (Stage { prefs: Prefs { show_perf_hud: show, ..self.prefs }, ..self }).reflow(
            env,
        ).paint_main()
    }

    /// The effects' switches follow where they are taken over.
    #[verifier::opaque]
    pub open spec fn fx_followed(self, fx: FxToggles, taken: bool) -> Stage {
        if taken {
            Stage {
                prefs: Prefs { fx, ..self.prefs },
                due: Due { paint_main: true, paint_detached: true, ..self.due },
                ..self
            }
        } else {
            self
        }
    }

    fn follow_fx(self, fx: FxToggles, taken: bool) -> (r: Stage)
        ensures
            r == self.fx_followed(fx, taken),
    {
        proof {
            reveal(Stage::fx_followed);
        }
        if taken {
            Stage {
                prefs: Prefs { fx, ..self.prefs },
                due: Due { paint_main: true, paint_detached: true, ..self.due },
                ..self
            }
        } else {
            self
        }
    }

    /// The switches that need nothing done follow. Starting at login does not:
    /// the file that makes it so decides.
    #[verifier::opaque]
    pub open spec fn switches_followed(self, f: ConfigFlags) -> Stage {
        Stage {
            prefs: Prefs {
                focus_autohide: f.focus_autohide,
                notify_on_finish: f.notify_on_command_finish,
                notify_min_seconds: limit_seconds(f.notify_min_seconds),
                notify_only_on_failure: f.notify_only_on_failure,
                auto_summon_on_finish: f.auto_summon_on_finish,
                osc52_allow_paste: f.osc52_allow_paste,
                hot_reload: f.hot_reload,
                show_welcome: f.show_welcome,
                ..self.prefs
            },
            ..self
        }
    }

    fn follow_switches(self, f: ConfigFlags) -> (r: Stage)
        ensures
            r == self.switches_followed(f),
    {
        proof {
            reveal(Stage::switches_followed);
        }
        Stage {
            prefs: Prefs {
                focus_autohide: f.focus_autohide,
                notify_on_finish: f.notify_on_command_finish,
                notify_min_seconds: crate::config::clamp_seconds(f.notify_min_seconds),
                notify_only_on_failure: f.notify_only_on_failure,
                auto_summon_on_finish: f.auto_summon_on_finish,
                osc52_allow_paste: f.osc52_allow_paste,
                hot_reload: f.hot_reload,
                show_welcome: f.show_welcome,
                ..self.prefs
            },
            ..self
        }
    }

    /// Everything that is neither a look, a font nor a text follows.
    #[verifier::opaque]
    pub open spec fn rest_followed(self, c: ConfigView, t: Taken, env: Env) -> Stage {
        self.effect_followed(from_key(c.summon_effect), t.corner_radius).shape_followed(
            mode_of_key(c.window_mode),
            c.tab_bar_position == "bottom"@,
            t.dropdown_height || t.dropdown_width,
            env.now,
        ).scrollback_limited(limit_lines(c.flags.scrollback_lines)).hud_followed(
            c.flags.show_perf_hud,
            env,
        ).fx_followed(c.flags.fx, t.effects).switches_followed(c.flags)
    }

    fn follow_rest(self, c: &Config, t: Taken, env: &Env) -> (r: Stage)
        ensures
            r == self.rest_followed(c@, t, *env),
    {
        proof {
            reveal(Stage::rest_followed);
        }
        let effect: SummonEffect = SummonEffect::from_config(c.summon_effect.as_str());
        let mode: WindowMode = WindowMode::from_config(c.window_mode.as_str());
        let bottom: bool = str_eq(c.tab_bar_position.as_str(), "bottom");
        let lines: usize = crate::config::clamp_lines(c.flags.scrollback_lines);
        self.follow_effect(effect, t.corner_radius).follow_shape(
            mode,
            bottom,
            t.dropdown_height || t.dropdown_width,
            env.now,
        ).set_scrollback_lines(lines).follow_hud(c.flags.show_perf_hud, env).follow_fx(
            c.flags.fx,
            t.effects,
        ).follow_switches(c.flags)
    }
}

proof fn lemma_looks_keep(s: Stage, theme: Option<usize>, opacity: bool)
    ensures
        s.narrows_to(s.looks_followed(theme, opacity)),
{
    reveal(Stage::looks_followed);
    lemma_keep(s, s.looks_followed(theme, opacity));
}

proof fn lemma_shape_keep(s: Stage, mode: WindowMode, bottom: bool, sized: bool, now: u64)
    ensures
        s.narrows_to(s.shape_followed(mode, bottom, sized, now)),
{
    reveal(Stage::shape_followed);
    let a = s.mode_chosen(mode, now);
    let b = a.bar_moved(bottom);
    lemma_setters_keep(s, SummonEffect::Plain, mode, bottom, 0, now);
    lemma_setters_keep(a, SummonEffect::Plain, mode, bottom, 0, now);
    lemma_setters_keep(b, SummonEffect::Plain, mode, bottom, 0, now);
    lemma_narrow_trans(s, a, b);
    lemma_narrow_trans(s, b, b.size_followed(sized));
}

proof fn lemma_hud_keep(s: Stage, show: bool, env: Env)
    ensures
        s.narrows_to(s.hud_followed(show, env)),
{
    reveal(Stage::hud_followed);
    lemma_keep(s, s.hud_followed(show, env));
}

proof fn lemma_flags_keep(
    s: Stage,
    effect: SummonEffect,
    corner: bool,
    fx: FxToggles,
    taken: bool,
    f: ConfigFlags,
)
    ensures
        s.narrows_to(s.effect_followed(effect, corner)),
        s.narrows_to(s.fx_followed(fx, taken)),
        s.narrows_to(s.switches_followed(f)),
{
    assert(s.narrows_to(s.effect_followed(effect, corner))) by {
        reveal(Stage::effect_followed);
        lemma_keep(s, s.effect_followed(effect, corner));
    }
    assert(s.narrows_to(s.fx_followed(fx, taken))) by {
        reveal(Stage::fx_followed);
        lemma_keep(s, s.fx_followed(fx, taken));
    }
    assert(s.narrows_to(s.switches_followed(f))) by {
        reveal(Stage::switches_followed);
        lemma_keep(s, s.switches_followed(f));
    }
}

proof fn lemma_rest_keep(s: Stage, c: ConfigView, t: Taken, env: Env)
    ensures
        s.narrows_to(s.rest_followed(c, t, env)),
{
    reveal(Stage::rest_followed);
    let e = from_key(c.summon_effect);
    let m = mode_of_key(c.window_mode);
    let bottom = c.tab_bar_position == "bottom"@;
    let sized = t.dropdown_height || t.dropdown_width;
    let lines = limit_lines(c.flags.scrollback_lines);
    let s1 = s.effect_followed(e, t.corner_radius);
    let s2 = s1.shape_followed(m, bottom, sized, env.now);
    let s3 = s2.scrollback_limited(lines);
    let s4 = s3.hud_followed(c.flags.show_perf_hud, env);
    let s5 = s4.fx_followed(c.flags.fx, t.effects);
    let s6 = s5.switches_followed(c.flags);
    lemma_flags_keep(s, e, t.corner_radius, c.flags.fx, t.effects, c.flags);
    lemma_shape_keep(s1, m, bottom, sized, env.now);
    lemma_narrow_trans(s, s1, s2);
    lemma_setters_keep(s2, e, m, bottom, lines, env.now);
    lemma_narrow_trans(s, s2, s3);
    lemma_hud_keep(s3, c.flags.show_perf_hud, env);
    lemma_narrow_trans(s, s3, s4);
    lemma_flags_keep(s4, e, t.corner_radius, c.flags.fx, t.effects, c.flags);
    lemma_narrow_trans(s, s4, s5);
    lemma_flags_keep(s5, e, t.corner_radius, c.flags.fx, t.effects, c.flags);
    lemma_narrow_trans(s, s5, s6);
}

/// A configuration that was read, with what differs in it. Its theme is known
/// by its place in the list, where there is one of that name.
#[derive(Debug)]
pub struct Reloaded {
    pub config: Config,
    pub theme: Option<usize>,
    pub differs: Differs,
}

impl AppView {
    /// The terminals' font follows.
    #[verifier::opaque]
    pub open spec fn font_followed(self, sized: bool, name: Seq<char>, env: Env) -> AppView {
        let v = if sized {
            self.font_sized(env.now)
        } else {
            self
        };
        if name != v.text.font_family {
            v.font_chosen(name, env)
        } else {
            v
        }
    }

    /// The font of bars and menus follows.
    #[verifier::opaque]
    pub open spec fn ui_font_followed(self, sized: bool, name: Seq<char>) -> AppView {
        let v = if sized {
            AppView { st: self.st.ui_fonts_changed(), ..self }
        } else {
            self
        };
        if name != v.text.ui_font_family {
            v.ui_font_chosen(name)
        } else {
            v
        }
    }

    /// The hotkey and the shell follow: the one from the next start on, the
    /// other from the next tab on.
    pub open spec fn texts_followed(self, c: ConfigView) -> AppView {
        AppView {
            text: TextPrefsView {
                summon_hotkey: c.summon_hotkey,
                shell: c.shell,
                ..self.text
            },
            ..self
        }
    }

    /// A configuration that was edited elsewhere is followed.
    #[verifier::opaque]
    pub open spec fn followed(
        self,
        c: ConfigView,
        theme: Option<usize>,
        d: Differs,
        env: Env,
    ) -> AppView {
        let t = self.st.takes(d, c.flags);
        let a = AppView { st: self.st.looks_followed(theme, t.opacity), ..self };
        let b = a.font_followed(d.font_size, c.font_family, env).ui_font_followed(
            d.ui_font_size,
            c.ui_font_family,
        );
        (AppView { st: b.st.rest_followed(c, t, env), ..b }).texts_followed(c)
    }
}

impl App {
    fn follow_font(&mut self, sized: bool, name: String, env: &Env)
        requires
            old(self)@.wf(),
            env.now <= LAST_INSTANT,
        ensures
            final(self)@ == old(self)@.font_followed(sized, name@, *env),
            final(self)@.wf(),
    {
        proof {
            reveal(AppView::font_followed);
        }
        if sized {
            self.font_sized(env.now);
        }
        if !str_eq(name.as_str(), self.text.font_family.as_str()) {
            self.set_font_family(name, env);
        }
    }

    fn follow_ui_font(&mut self, sized: bool, name: String)
        requires
            old(self)@.wf(),
        ensures
            final(self)@ == old(self)@.ui_font_followed(sized, name@),
            final(self)@.wf(),
    {
        proof {
            reveal(AppView::ui_font_followed);
        }
        if sized {
            self.ui_font_sized();
        }
        if !str_eq(name.as_str(), self.text.ui_font_family.as_str()) {
            self.set_ui_font_family(name);
        }
    }

    /// Follows a configuration that was edited elsewhere, and tells what the
    /// windowing side takes over from it.
    pub fn apply_reloaded_config(&mut self, r: Reloaded, env: &Env) -> (t: Taken)
        requires
            old(self)@.wf(),
            env.now <= LAST_INSTANT,
        ensures
            final(self)@ == old(self)@.followed(r.config@, r.theme, r.differs, *env),
            t == old(self)@.st.takes(r.differs, r.config.flags),
            final(self)@.wf(),
    {
        proof {
            reveal(AppView::followed);
        }
        let d: Differs = r.differs;
        let t: Taken = self.st.take_over(d, r.config.flags);
        self.follow_stage_looks(r.theme, t.opacity);
        self.follow_font(d.font_size, r.config.font_family.clone(), env);
        self.follow_ui_font(d.ui_font_size, r.config.ui_font_family.clone());
        self.follow_stage_rest(&r.config, t, env);
        self.text.summon_hotkey = r.config.summon_hotkey;
        self.text.shell = r.config.shell;
        t
    }

    fn follow_stage_looks(&mut self, theme: Option<usize>, opacity: bool)
        requires
            old(self)@.wf(),
        ensures
            final(self)@ == (AppView {
                st: old(self)@.st.looks_followed(theme, opacity),
                ..old(self)@
            }),
            final(self)@.wf(),
    {
        proof {
            lemma_looks_keep(self@.st, theme, opacity);
            lemma_wf_narrow(self@, self@.st.looks_followed(theme, opacity));
        }
        self.st = self.st.follow_looks(theme, opacity);
    }

    fn follow_stage_rest(&mut self, c: &Config, t: Taken, env: &Env)
        requires
            old(self)@.wf(),
        ensures
            final(self)@ == (AppView {
                st: old(self)@.st.rest_followed(c@, t, *env),
                ..old(self)@
            }),
            final(self)@.wf(),
    {
        proof {
            lemma_rest_keep(self@.st, c@, t, *env);
            lemma_wf_narrow(self@, self@.st.rest_followed(c@, t, *env));
        }
        self.st = self.st.follow_rest(c, t, env);
    }
}

/// The place of the theme in use after the themes were read again: that of
/// its name, or the first.
pub open spec fn theme_place(found: Option<usize>, count: usize) -> usize {
    let i = match found {
        Some(i) => i,
        None => 0,
    };
    if i < count {
        i
    } else if count > 0 {
        (count - 1) as usize
    } else {
        0
    }
}

impl Stage {
    /// A reload begins: from here on nothing is written down, and the theme in
    /// use is found again among the themes.
    #[verifier::opaque]
    pub open spec fn reload_begun(self, found: Option<usize>, count: usize) -> Stage {
        (Stage {
            panel: Panel { reloading: true, theme_idx: theme_place(found, count), ..self.panel },
            ..self
        }).apply_theme()
    }

    fn begin_reload(self, found: Option<usize>, count: usize) -> (r: Stage)
        ensures
            r == self.reload_begun(found, count),
    {
        proof {
            reveal(Stage::reload_begun);
        }
        let i: usize = match found {
            Some(i) => i,
            None => 0,
        };
        let theme_idx: usize = if i < count {
            i
        } else if count > 0 {
            count - 1
        } else {
            0
        };
        (Stage { panel: Panel { reloading: true, theme_idx, ..self.panel }, ..self }).apply_theme()
    }

    /// A reload ends. `seen` is the hash of the text that was read.
    #[verifier::opaque]
    pub open spec fn reload_ended(self, seen: Option<u64>) -> Stage {
        (Stage {
            panel: Panel {
                reloading: false,
                last_written: if seen is Some {
                    seen
                } else {
                    self.panel.last_written
                },
                ..self.panel
            },
            ..self
        }).paint_both()
    }

    fn end_reload(self, seen: Option<u64>) -> (r: Stage)
        ensures
            r == self.reload_ended(seen),
    {
        proof {
            reveal(Stage::reload_ended);
        }
        let last_written: Option<u64> = if seen.is_some() {
            seen
        } else {
            self.panel.last_written
        };
        (Stage {
            panel: Panel { reloading: false, last_written, ..self.panel },
            ..self
        }).paint_both()
    }
}

proof fn lemma_reload_keep(s: Stage, found: Option<usize>, count: usize, seen: Option<u64>)
    ensures
        s.narrows_to(s.reload_begun(found, count)),
        s.narrows_to(s.reload_ended(seen)),
{
    assert(s.narrows_to(s.reload_begun(found, count))) by {
        reveal(Stage::reload_begun);
        lemma_keep(s, s.reload_begun(found, count));
    }
    assert(s.narrows_to(s.reload_ended(seen))) by {
        reveal(Stage::reload_ended);
        lemma_keep(s, s.reload_ended(seen));
    }
}

impl AppView {
    /// The text is what the application wrote itself, or read before.
    pub open spec fn wrote(self, text: Seq<char>) -> bool {
        self.st.panel.last_written == Some(text_hash(text))
    }

    /// The themes and the configuration are read again. `text` is the
    /// configuration's text, where it could be read, and `read` what it says,
    /// where it says anything.
    pub open spec fn reloaded(
        self,
        found: Option<usize>,
        count: usize,
        text: Option<Seq<char>>,
        read: Option<Reloaded>,
        env: Env,
    ) -> AppView {
        let a = AppView { st: self.st.reload_begun(found, count), ..self };
        let b = match (text, read) {
            (Some(t), Some(r)) if !self.wrote(t) => a.followed(
                r.config@,
                r.theme,
                r.differs,
                env,
            ),
            _ => a,
        };
        let seen = match text {
            Some(t) => Some(text_hash(t)),
            None => None,
        };
        AppView { st: b.st.reload_ended(seen), ..b }
    }
}

impl App {
    /// Notes the configuration text that is about to be written.
    pub fn config_written(&mut self, text: &str)
        requires
            old(self)@.wf(),
        ensures
            final(self)@ == (AppView {
                st: Stage {
                    panel: Panel {
                        last_written: Some(text_hash(text@)),
                        ..old(self)@.st.panel
                    },
                    ..old(self)@.st
                },
                ..old(self)@
            }),
            final(self)@.wrote(text@),
            final(self)@.wf(),
    {
        let h: u64 = hash_config_str(text);
        self.st = Stage { panel: Panel { last_written: Some(h), ..self.st.panel }, ..self.st };
    }

    /// Whether a configuration text that was read is worth parsing: not where
    /// the application wrote it itself.
    pub fn is_foreign(&self, text: &str) -> (r: bool)
        ensures
            r == !self@.wrote(text@),
    {
        let h: u64 = hash_config_str(text);
        match self.st.panel.last_written {
            Some(w) => w != h,
            None => true,
        }
    }

    /// Takes the themes and the configuration as they are on disk now.
    /// `found` is the place of the theme in use among the `count` themes.
    pub fn reload_config_and_themes(
        &mut self,
        found: Option<usize>,
        count: usize,
        text: Option<&str>,
        read: Option<Reloaded>,
        env: &Env,
    ) -> (t: Taken)
        requires
            old(self)@.wf(),
            env.now <= LAST_INSTANT,
        ensures
            final(self)@ == old(self)@.reloaded(
                found,
                count,
                match text {
                    Some(s) => Some(s@),
                    None => None,
                },
                read,
                *env,
            ),
            t == (match (text, read) {
                (Some(s), Some(r)) if !old(self)@.wrote(s@) => old(self)@.st.reload_begun(
                    found,
                    count,
                ).takes(r.differs, r.config.flags),
                _ => nothing_taken(),
            }),
            final(self)@.wf(),
    {
        let foreign: bool = match text {
            Some(s) => self.is_foreign(s),
            None => false,
        };
        let seen: Option<u64> = match text {
            Some(s) => Some(hash_config_str(s)),
            None => None,
        };
        proof {
            lemma_reload_keep(self@.st, found, count, None);
            lemma_wf_narrow(self@, self@.st.reload_begun(found, count));
        }
        self.st = self.st.begin_reload(found, count);
        let mut taken: Taken = take_nothing();
        if foreign {
            if let Some(r) = read {
                taken = self.apply_reloaded_config(r, env);
            }
        }
        proof {
            lemma_reload_keep(self@.st, None, 0, seen);
            lemma_wf_narrow(self@, self@.st.reload_ended(seen));
        }
        self.st = self.st.end_reload(seen);
        taken
    }
}

impl Stage {
    /// From `self` to `t` nothing was written down, if a reload is under way.
    #[verifier::opaque]
    pub open spec fn quiet_to(self, t: Stage) -> bool {
        self.panel.reloading ==> t.panel.reloading && t.due.persist == self.due.persist
    }
}

proof fn lemma_quiet(s: Stage, t: Stage)
    requires
        t.panel.reloading == s.panel.reloading,
        s.panel.reloading ==> t.due.persist == s.due.persist,
    ensures
        s.quiet_to(t),
{
    reveal(Stage::quiet_to);
}

proof fn lemma_quiet_trans(a: Stage, b: Stage, c: Stage)
    requires
        a.quiet_to(b),
        b.quiet_to(c),
    ensures
        a.quiet_to(c),
{
    reveal(Stage::quiet_to);
}

proof fn lemma_quiet_looks(s: Stage, theme: Option<usize>, opacity: bool)
    ensures
        s.quiet_to(s.looks_followed(theme, opacity)),
{
    reveal(Stage::looks_followed);
    lemma_quiet(s, s.looks_followed(theme, opacity));
}

proof fn lemma_quiet_setters(s: Stage, mode: WindowMode, bottom: bool, lines: usize, now: u64)
    ensures
        s.quiet_to(s.mode_chosen(mode, now)),
        s.quiet_to(s.bar_moved(bottom)),
        s.quiet_to(s.scrollback_limited(lines)),
        s.quiet_to(s.redocked()),
        s.quiet_to(s),
{
    assert(s.quiet_to(s.mode_chosen(mode, now))) by {
        reveal(Stage::mode_chosen);
        lemma_quiet(s, s.floated().persist().paint_both());
        lemma_quiet(s, s.docked(now).persist().paint_both());
        lemma_quiet(s, s);
    }
    assert(s.quiet_to(s.bar_moved(bottom))) by {
        reveal(Stage::bar_moved);
        lemma_quiet(s, s.bar_moved(bottom));
    }
    assert(s.quiet_to(s.scrollback_limited(lines))) by {
        reveal(Stage::scrollback_limited);
        lemma_quiet(s, s.scrollback_limited(lines));
    }
    assert(s.quiet_to(s.redocked())) by {
        reveal(Stage::redocked);
        lemma_quiet(s, s.redocked());
    }
    lemma_quiet(s, s);
}

proof fn lemma_quiet_effect(s: Stage, effect: SummonEffect, corner: bool)
    ensures
        s.quiet_to(s.effect_followed(effect, corner)),
{
    reveal(Stage::effect_followed);
    lemma_quiet(s, s.effect_followed(effect, corner));
}

proof fn lemma_quiet_fx(s: Stage, fx: FxToggles, taken: bool)
    ensures
        s.quiet_to(s.fx_followed(fx, taken)),
{
    reveal(Stage::fx_followed);
    lemma_quiet(s, s.fx_followed(fx, taken));
}

proof fn lemma_quiet_switches(s: Stage, f: ConfigFlags)
    ensures
        s.quiet_to(s.switches_followed(f)),
{
    reveal(Stage::switches_followed);
    lemma_quiet(s, s.switches_followed(f));
}

proof fn lemma_quiet_hud(s: Stage, show: bool, env: Env)
    ensures
        s.quiet_to(s.hud_followed(show, env)),
{
    reveal(Stage::hud_followed);
    lemma_quiet(s, s.hud_followed(show, env));
}

proof fn lemma_quiet_shape(s: Stage, mode: WindowMode, bottom: bool, sized: bool, now: u64)
    ensures
        s.quiet_to(s.shape_followed(mode, bottom, sized, now)),
{
    reveal(Stage::shape_followed);
    let a = s.mode_chosen(mode, now);
    let b = a.bar_moved(bottom);
    lemma_quiet_setters(s, mode, bottom, 0, now);
    lemma_quiet_setters(a, mode, bottom, 0, now);
    lemma_quiet_setters(b, mode, bottom, 0, now);
    lemma_quiet_trans(s, a, b);
    lemma_quiet_trans(s, b, b.size_followed(sized));
}

proof fn lemma_quiet_rest(s: Stage, c: ConfigView, t: Taken, env: Env)
    ensures
        s.quiet_to(s.rest_followed(c, t, env)),
{
    reveal(Stage::rest_followed);
    let e = from_key(c.summon_effect);
    let m = mode_of_key(c.window_mode);
    let bottom = c.tab_bar_position == "bottom"@;
    let sized = t.dropdown_height || t.dropdown_width;
    let lines = limit_lines(c.flags.scrollback_lines);
    let s1 = s.effect_followed(e, t.corner_radius);
    let s2 = s1.shape_followed(m, bottom, sized, env.now);
    let s3 = s2.scrollback_limited(lines);
    let s4 = s3.hud_followed(c.flags.show_perf_hud, env);
    let s5 = s4.fx_followed(c.flags.fx, t.effects);
    let s6 = s5.switches_followed(c.flags);
    lemma_quiet_effect(s, e, t.corner_radius);
    lemma_quiet_shape(s1, m, bottom, sized, env.now);
    lemma_quiet_trans(s, s1, s2);
    lemma_quiet_setters(s2, m, bottom, lines, env.now);
    lemma_quiet_trans(s, s2, s3);
    lemma_quiet_hud(s3, c.flags.show_perf_hud, env);
    lemma_quiet_trans(s, s3, s4);
    lemma_quiet_fx(s4, c.flags.fx, t.effects);
    lemma_quiet_trans(s, s4, s5);
    lemma_quiet_switches(s5, c.flags);
    lemma_quiet_trans(s, s5, s6);
}

proof fn lemma_quiet_sized(v: AppView, now: u64)
    ensures
        v.st.quiet_to(v.font_sized(now).st),
{
    lemma_quiet(v.st, v.font_sized(now).st);
}

proof fn lemma_quiet_ui(s: Stage)
    ensures
        s.quiet_to(s.ui_fonts_changed()),
{
    lemma_quiet(s, s.ui_fonts_changed());
}

proof fn lemma_quiet_self(s: Stage)
    ensures
        s.quiet_to(s),
{
    lemma_quiet(s, s);
}

proof fn lemma_quiet_font(v: AppView, sized: bool, name: Seq<char>, env: Env)
    ensures
        v.st.quiet_to(v.font_followed(sized, name, env).st),
{
    reveal(AppView::font_followed);
    let w = if sized {
        v.font_sized(env.now)
    } else {
        v
    };
    lemma_quiet_sized(v, env.now);
    lemma_quiet_self(v.st);
    assert(v.st.quiet_to(w.st));
    lemma_quiet_family(w.st, env);
    lemma_quiet_trans(v.st, w.st, w.st.family_changed(env));
}

proof fn lemma_quiet_ui_font(v: AppView, sized: bool, name: Seq<char>)
    ensures
        v.st.quiet_to(v.ui_font_followed(sized, name).st),
{
    reveal(AppView::ui_font_followed);
    let s = if sized {
        v.st.ui_fonts_changed()
    } else {
        v.st
    };
    lemma_quiet_ui(v.st);
    lemma_quiet_self(v.st);
    lemma_quiet_ui(s);
    lemma_quiet_trans(v.st, s, s.ui_fonts_changed());
}

proof fn lemma_quiet_family(s: Stage, env: Env)
    ensures
        s.quiet_to(s.family_changed(env)),
{
    reveal(Stage::family_changed);
    lemma_quiet(s, s.family_changed(env));
}

/// Following a configuration while a reload is under way writes nothing down.
pub proof fn law_follow_writes_nothing(
    v: AppView,
    c: ConfigView,
    theme: Option<usize>,
    d: Differs,
    env: Env,
)
    requires
        v.st.panel.reloading,
    ensures
        v.followed(c, theme, d, env).st.due.persist == v.st.due.persist,
{
    reveal(AppView::followed);
    reveal(Stage::quiet_to);
    let t = v.st.takes(d, c.flags);
    let a = AppView { st: v.st.looks_followed(theme, t.opacity), ..v };
    let b = a.font_followed(d.font_size, c.font_family, env);
    let e = b.ui_font_followed(d.ui_font_size, c.ui_font_family);
    lemma_quiet_looks(v.st, theme, t.opacity);
    lemma_quiet_font(a, d.font_size, c.font_family, env);
    lemma_quiet_trans(v.st, a.st, b.st);
    lemma_quiet_ui_font(b, d.ui_font_size, c.ui_font_family);
    lemma_quiet_trans(v.st, b.st, e.st);
    lemma_quiet_rest(e.st, c, t, env);
    lemma_quiet_trans(v.st, e.st, e.st.rest_followed(c, t, env));
}

/// A reload never makes the application write the configuration, so that it
/// cannot chase its own tail; afterwards writing works again.
pub proof fn law_reload_writes_nothing(
    v: AppView,
    found: Option<usize>,
    count: usize,
    text: Option<Seq<char>>,
    read: Option<Reloaded>,
    env: Env,
)
    ensures
        v.reloaded(found, count, text, read, env).st.due.persist == v.st.due.persist,
        !v.reloaded(found, count, text, read, env).st.panel.reloading,
{
    let a = AppView { st: v.st.reload_begun(found, count), ..v };
    assert(a.st.panel.reloading && a.st.due.persist == v.st.due.persist) by {
        reveal(Stage::reload_begun);
    }
    if let (Some(t), Some(r)) = (text, read) {
        law_follow_writes_nothing(a, r.config@, r.theme, r.differs, env);
    }
    reveal(Stage::reload_ended);
}

/// The echo of the application's own write changes no setting.
pub proof fn law_own_write_is_skipped(
    v: AppView,
    found: Option<usize>,
    count: usize,
    text: Seq<char>,
    read: Option<Reloaded>,
    env: Env,
)
    requires
        v.wrote(text),
    ensures
        v.reloaded(found, count, Some(text), read, env).st.prefs == v.st.prefs,
        v.reloaded(found, count, Some(text), read, env).text == v.text,
{
    reveal(Stage::reload_begun);
    reveal(Stage::reload_ended);
}

/// A configuration that cannot be read, or says nothing, changes no setting.
pub proof fn law_bad_config_is_harmless(
    v: AppView,
    found: Option<usize>,
    count: usize,
    text: Option<Seq<char>>,
    env: Env,
)
    ensures
        v.reloaded(found, count, text, None, env).st.prefs == v.st.prefs,
        v.reloaded(found, count, text, None, env).text == v.text,
{
    reveal(Stage::reload_begun);
    reveal(Stage::reload_ended);
}

/// A text that was read is not taken a second time.
pub proof fn law_seen_text_is_known(
    v: AppView,
    found: Option<usize>,
    count: usize,
    text: Seq<char>,
    read: Option<Reloaded>,
    env: Env,
)
    ensures
        v.reloaded(found, count, Some(text), read, env).wrote(text),
{
    reveal(Stage::reload_ended);
}

/// What the user is dragging stays theirs: a reload takes neither of the
/// values that are held.
pub proof fn law_drag_wins(s: Stage, d: Differs, f: ConfigFlags)
    ensures
        s.pointer.dragging_slider ==> !s.takes(d, f).opacity,
        s.pointer.dragging_radius ==> !s.takes(d, f).corner_radius,
        s.pointer.dragging_dropdown ==> !s.takes(d, f).dropdown_height,
        s.pointer.dragging_dropdown_width ==> !s.takes(d, f).dropdown_width,
        s.pointer.active_fx_drag is Some ==> !s.takes(d, f).effects,
{
}

/// A value of the file is taken where it differs from the one in use.
pub proof fn law_differing_values_are_taken(s: Stage, d: Differs, f: ConfigFlags)
    ensures
        ({
            let t = s.takes(d, f);
            &&& !s.pointer.dragging_slider ==> t.opacity == d.opacity
            &&& t.font_size == d.font_size && t.ui_font_size == d.ui_font_size
            &&& !s.pointer.dragging_radius ==> t.corner_radius == d.corner_radius
            &&& !s.pointer.dragging_dropdown ==> t.dropdown_height == d.dropdown_height
            &&& !s.pointer.dragging_dropdown_width ==> t.dropdown_width == d.dropdown_width
            &&& s.pointer.active_fx_drag is None ==> t.effects == (d.effects || f.fx
                != s.prefs.fx)
            &&& t.keys == d.keys
            &&& t.osc52 == (f.osc52_allow_paste != s.prefs.osc52_allow_paste)
            &&& t.unwatch == !f.hot_reload
        }),
        !nothing_taken().opacity && !nothing_taken().font_size && !nothing_taken().ui_font_size
            && !nothing_taken().corner_radius && !nothing_taken().dropdown_height
            && !nothing_taken().dropdown_width && !nothing_taken().effects && !nothing_taken().keys
            && !nothing_taken().osc52 && !nothing_taken().unwatch,
{
}

/// A theme that the file names is taken and restyles; so does a new opacity; a
/// theme that is not there leaves the one in use.
pub proof fn law_theme_is_followed(s: Stage, theme: Option<usize>, opacity: bool)
    ensures
        theme matches Some(i) ==> s.looks_followed(theme, opacity).panel.theme_idx == i,
        theme is None ==> s.looks_followed(theme, opacity).panel.theme_idx == s.panel.theme_idx,
        (theme matches Some(i) && i != s.panel.theme_idx) ==> s.looks_followed(
            theme,
            opacity,
        ).due.restyle,
        opacity ==> s.looks_followed(theme, opacity).due.restyle,
        (theme is None || theme == Some(s.panel.theme_idx)) && !opacity ==> s.looks_followed(
            theme,
            opacity,
        ) == s,
{
    reveal(Stage::looks_followed);
}

/// The steps that follow the file's plain values take each its own.
pub proof fn law_values_are_followed(s: Stage, effect: SummonEffect, corner: bool, env: Env)
    ensures
        s.effect_followed(effect, corner).prefs.summon_effect == effect,
        corner ==> s.effect_followed(effect, corner).due.paint_main,
        s.effect_followed(effect, corner).timers == s.timers,
        s.hud_followed(true, env).prefs.show_perf_hud,
        !s.hud_followed(false, env).prefs.show_perf_hud,
        !s.prefs.show_perf_hud ==> s.hud_followed(true, env).due.paint_main && (env.grid_ready
            ==> s.hud_followed(true, env).due.reflow),
        s.prefs.show_perf_hud ==> s.hud_followed(true, env) == s,
{
    reveal(Stage::effect_followed);
    reveal(Stage::hud_followed);
}

/// A changed size of the dropdown docks the window anew, an unchanged one does
/// nothing; the window's mode and the place of its bar are the file's.
pub proof fn law_shape_is_followed(s: Stage, mode: WindowMode, bottom: bool, sized: bool, now: u64)
    ensures
        s.shape_followed(mode, bottom, sized, now).prefs.window_mode == mode,
        s.shape_followed(mode, bottom, sized, now).prefs.tab_bar_bottom == bottom,
        s.size_followed(false) == s,
        s.presence.visible && s.prefs.window_mode == WindowMode::Dropdown && s.presence.main_window
            is Some ==> s.size_followed(true).due.redock,
{
    reveal(Stage::shape_followed);
    reveal(Stage::mode_chosen);
    reveal(Stage::bar_moved);
    reveal(Stage::redocked);
}

/// The screen effects of the file are taken where they are to be, and every
/// window is painted with them.
pub proof fn law_screen_effects_are_followed(s: Stage, fx: FxToggles)
    ensures
        s.fx_followed(fx, true).prefs.fx == fx,
        s.fx_followed(fx, true).due.paint_main,
        s.fx_followed(fx, true).due.paint_detached,
        s.fx_followed(fx, false) == s,
{
    reveal(Stage::fx_followed);
}

/// Each switch of the file is taken as it is; the shortest run that notifies
/// lies between a second and a day.
pub proof fn law_switches_are_followed(s: Stage, f: ConfigFlags)
    ensures
        ({
            let p = s.switches_followed(f).prefs;
            &&& p.focus_autohide == f.focus_autohide
            &&& p.notify_on_finish == f.notify_on_command_finish
            &&& p.notify_only_on_failure == f.notify_only_on_failure
            &&& p.auto_summon_on_finish == f.auto_summon_on_finish
            &&& p.osc52_allow_paste == f.osc52_allow_paste
            &&& p.hot_reload == f.hot_reload
            &&& p.show_welcome == f.show_welcome
            &&& 1 <= f.notify_min_seconds <= 86_400 ==> p.notify_min_seconds
                == f.notify_min_seconds
            &&& f.notify_min_seconds < 1 ==> p.notify_min_seconds == 1
            &&& f.notify_min_seconds > 86_400 ==> p.notify_min_seconds == 86_400
            &&& p.window_mode == s.prefs.window_mode && p.fx == s.prefs.fx
        }),
        s.switches_followed(f).due == s.due,
{
    reveal(Stage::switches_followed);
}

proof fn lemma_mode_prefs(s: Stage, mode: WindowMode, now: u64)
    ensures
        s.mode_chosen(mode, now).prefs == (Prefs { window_mode: mode, ..s.prefs }),
{
    reveal(Stage::mode_chosen);
}

proof fn lemma_bar_prefs(s: Stage, bottom: bool)
    ensures
        s.bar_moved(bottom).prefs == (Prefs { tab_bar_bottom: bottom, ..s.prefs }),
{
    reveal(Stage::bar_moved);
}

proof fn lemma_size_prefs(s: Stage, sized: bool)
    ensures
        s.size_followed(sized).prefs == s.prefs,
{
    reveal(Stage::redocked);
}

proof fn lemma_shape_prefs(s: Stage, mode: WindowMode, bottom: bool, sized: bool, now: u64)
    ensures
        s.shape_followed(mode, bottom, sized, now).prefs == (Prefs {
            window_mode: mode,
            tab_bar_bottom: bottom,
            ..s.prefs
        }),
{
    reveal(Stage::shape_followed);
    lemma_mode_prefs(s, mode, now);
    lemma_bar_prefs(s.mode_chosen(mode, now), bottom);
    lemma_size_prefs(s.mode_chosen(mode, now).bar_moved(bottom), sized);
}

proof fn lemma_switch_prefs(s: Stage, f: ConfigFlags)
    ensures
        ({
            let p = s.switches_followed(f).prefs;
            &&& p.summon_effect == s.prefs.summon_effect && p.tab_bar_bottom
                == s.prefs.tab_bar_bottom && p.window_mode == s.prefs.window_mode
            &&& p.show_perf_hud == s.prefs.show_perf_hud && p.launch_at_login
                == s.prefs.launch_at_login && p.scrollback_lines == s.prefs.scrollback_lines
            &&& p.fx == s.prefs.fx && p.focus_autohide == f.focus_autohide && p.hot_reload
                == f.hot_reload
        }),
{
    reveal(Stage::switches_followed);
}

proof fn lemma_scrollback_prefs(s: Stage, lines: usize)
    ensures
        s.scrollback_limited(lines).prefs == (Prefs { scrollback_lines: lines, ..s.prefs }),
{
    reveal(Stage::scrollback_limited);
}

proof fn lemma_hud_prefs(s: Stage, show: bool, env: Env)
    ensures
        s.hud_followed(show, env).prefs == (Prefs { show_perf_hud: show, ..s.prefs }),
{
    reveal(Stage::hud_followed);
}

proof fn lemma_fx_prefs(s: Stage, fx: FxToggles, taken: bool)
    ensures
        taken ==> s.fx_followed(fx, taken).prefs == (Prefs { fx, ..s.prefs }),
        !taken ==> s.fx_followed(fx, taken).prefs == s.prefs,
{
    reveal(Stage::fx_followed);
}

proof fn lemma_effect_prefs(s: Stage, effect: SummonEffect, corner: bool)
    ensures
        s.effect_followed(effect, corner).prefs == (Prefs { summon_effect: effect, ..s.prefs }),
{
    reveal(Stage::effect_followed);
}

proof fn lemma_shown_prefs(
    s: Stage,
    mode: WindowMode,
    bottom: bool,
    sized: bool,
    lines: usize,
    show: bool,
    env: Env,
)
    ensures
        s.shape_followed(mode, bottom, sized, env.now).scrollback_limited(lines).hud_followed(
            show,
            env,
        ).prefs == (Prefs {
            window_mode: mode,
            tab_bar_bottom: bottom,
            scrollback_lines: lines,
            show_perf_hud: show,
            ..s.prefs
        }),
{
    let b = s.shape_followed(mode, bottom, sized, env.now);
    lemma_shape_prefs(s, mode, bottom, sized, env.now);
    lemma_scrollback_prefs(b, lines);
    lemma_hud_prefs(b.scrollback_limited(lines), show, env);
}

/// A reload that was read leaves the file's switches, effect, mode and display
/// in use.
pub proof fn law_rest_is_followed(s: Stage, c: ConfigView, t: Taken, env: Env)
    ensures
        ({
            let p = s.rest_followed(c, t, env).prefs;
            &&& p.summon_effect == from_key(c.summon_effect)
            &&& p.window_mode == mode_of_key(c.window_mode)
            &&& p.tab_bar_bottom == (c.tab_bar_position == "bottom"@)
            &&& p.show_perf_hud == c.flags.show_perf_hud
            &&& t.effects ==> p.fx == c.flags.fx
            &&& !t.effects ==> p.fx == s.prefs.fx
            &&& p.focus_autohide == c.flags.focus_autohide
            &&& p.hot_reload == c.flags.hot_reload
            &&& p.launch_at_login == s.prefs.launch_at_login
            &&& p.scrollback_lines == limit_lines(c.flags.scrollback_lines)
        }),
{
    let effect = from_key(c.summon_effect);
    let mode = mode_of_key(c.window_mode);
    let bottom = c.tab_bar_position == "bottom"@;
    let sized = t.dropdown_height || t.dropdown_width;
    let lines = limit_lines(c.flags.scrollback_lines);
    let show = c.flags.show_perf_hud;
    lemma_rest_steps(s, effect, t, mode, bottom, sized, lines, show, c.flags, env);
    reveal(Stage::rest_followed);
}

proof fn lemma_rest_steps(
    s: Stage,
    effect: SummonEffect,
    t: Taken,
    mode: WindowMode,
    bottom: bool,
    sized: bool,
    lines: usize,
    show: bool,
    f: ConfigFlags,
    env: Env,
)
    ensures
        ({
            let p = s.effect_followed(effect, t.corner_radius).shape_followed(
                mode,
                bottom,
                sized,
                env.now,
            ).scrollback_limited(lines).hud_followed(show, env).fx_followed(
                f.fx,
                t.effects,
            ).switches_followed(f).prefs;
            &&& p.summon_effect == effect && p.window_mode == mode && p.tab_bar_bottom == bottom
            &&& p.show_perf_hud == show && p.scrollback_lines == lines
            &&& t.effects ==> p.fx == f.fx
            &&& !t.effects ==> p.fx == s.prefs.fx
            &&& p.focus_autohide == f.focus_autohide && p.hot_reload == f.hot_reload
            &&& p.launch_at_login == s.prefs.launch_at_login
        }),
{
    let a = s.effect_followed(effect, t.corner_radius);
    lemma_effect_prefs(s, effect, t.corner_radius);
    let e = a.shape_followed(mode, bottom, sized, env.now).scrollback_limited(lines).hud_followed(
        show,
        env,
    );
    lemma_shown_prefs(a, mode, bottom, sized, lines, show, env);
    lemma_fx_prefs(e, f.fx, t.effects);
    lemma_switch_prefs(e.fx_followed(f.fx, t.effects), f);
}

/// The font of the file is the one in use; a new one is loaded.
pub proof fn law_font_is_followed(v: AppView, sized: bool, name: Seq<char>, env: Env)
    ensures
        v.font_followed(sized, name, env).text.font_family == name,
        v.font_followed(sized, name, env).text.ui_font_family == v.text.ui_font_family,
        !sized && name == v.text.font_family ==> v.font_followed(sized, name, env) == v,
        name != v.text.font_family ==> v.font_followed(sized, name, env).st.due.refont,
{
    reveal(AppView::font_followed);
    reveal(Stage::family_changed);
}

/// The interface font of the file is the one in use; a new one, or a new size,
/// is loaded.
pub proof fn law_ui_font_is_followed(v: AppView, sized: bool, name: Seq<char>)
    ensures
        v.ui_font_followed(sized, name).text.ui_font_family == name,
        v.ui_font_followed(sized, name).text.font_family == v.text.font_family,
        !sized && name == v.text.ui_font_family ==> v.ui_font_followed(sized, name) == v,
        name != v.text.ui_font_family || sized ==> v.ui_font_followed(sized, name).st.due.refont,
{
    reveal(AppView::ui_font_followed);
}

/// The shell and the hotkey in use are the file's.
pub proof fn law_texts_are_followed(v: AppView, c: ConfigView)
    ensures
        v.texts_followed(c).text.summon_hotkey == c.summon_hotkey,
        v.texts_followed(c).text.shell == c.shell,
        v.texts_followed(c).text.font_family == v.text.font_family,
        v.texts_followed(c).text.ui_font_family == v.text.ui_font_family,
{
}

/// A file that was read, and that is not the library's own last write, has its
/// fonts, shell and hotkey taken.
pub proof fn law_new_file_is_followed(
    v: AppView,
    found: Option<usize>,
    count: usize,
    text: Seq<char>,
    r: Reloaded,
    env: Env,
)
    requires
        !v.wrote(text),
    ensures
        ({
            let w = v.reloaded(found, count, Some(text), Some(r), env);
            &&& w.text.font_family == r.config@.font_family
            &&& w.text.ui_font_family == r.config@.ui_font_family
            &&& w.text.shell == r.config@.shell
            &&& w.text.summon_hotkey == r.config@.summon_hotkey
        }),
{
    reveal(AppView::followed);
    reveal(AppView::font_followed);
    reveal(AppView::ui_font_followed);
}

/// The theme in use is looked for among those there are: where it was found,
/// the last one past the end, the first one where it was not.
pub proof fn law_theme_has_a_place(found: Option<usize>, count: usize)
    ensures
        (found matches Some(i) && i < count) ==> theme_place(found, count) == found.unwrap(),
        (found matches Some(i) && i >= count) && count > 0 ==> theme_place(found, count) == count
            - 1,
        found is None || count == 0 ==> theme_place(found, count) == 0,
        count > 0 ==> theme_place(found, count) < count,
{
}

/// A reload restyles what is shown with the theme it found, and ends with the
/// main window and the settings painted.
pub proof fn law_reload_restyles(s: Stage, found: Option<usize>, count: usize, seen: Option<u64>)
    ensures
        s.reload_begun(found, count).due.restyle,
        s.reload_begun(found, count).panel.reloading,
        (found matches Some(i) && i < count) ==> s.reload_begun(found, count).panel.theme_idx
            == found.unwrap(),
        s.reload_begun(found, count).prefs == s.prefs,
        s.reload_ended(seen).due.paint_main && s.reload_ended(seen).due.paint_settings,
        !s.reload_ended(seen).panel.reloading,
        seen is Some ==> s.reload_ended(seen).panel.last_written == seen,
        seen is None ==> s.reload_ended(seen).panel.last_written == s.panel.last_written,
{
    reveal(Stage::reload_begun);
    reveal(Stage::reload_ended);
}

} // verus!
