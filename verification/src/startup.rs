//! The first window: its fonts, its place, its first tab and the hotkey that
//! summons it.

use vstd::prelude::*;

use std::str::FromStr;

use crate::mode::WindowMode;
use crate::presence::{LAST_INSTANT, SETTLE_FRAMES, SUMMON_SETTLE};
use crate::state::{
    tab_views, texts, App, AppView, Due, Presence, Stage, Tab, TabActivity, TabView,
    TextPrefsView, Timers, WindowCmd,
};
use crate::tabs::{lemma_keep, lemma_wf_narrow};
use crate::text::str_eq;

verus! {

/// The global-hotkey crate reads the text as a hotkey.
pub uninterp spec fn hotkey_ok(text: Seq<char>) -> bool;

/// `HotKey::from_str` of the global-hotkey crate: whether it reads the text as
/// a hotkey depends on the text alone, and "F9" is one. Which key it reads is
/// not said here.
#[verifier::external_body]
fn hotkey_parses(text: &str) -> (r: bool)
    ensures
        r == hotkey_ok(text@),
        text@ == "F9"@ ==> r,
{
    global_hotkey::hotkey::HotKey::from_str(text).is_ok()
}

/// The hotkey to register: the configured one, or F9 where it is none.
pub fn effective_hotkey(text: &str) -> (r: String)
    ensures
        r@ == if hotkey_ok(text@) {
            text@
        } else {
            "F9"@
        },
        text@ == "F9"@ ==> r@ == text@,
{
    hotkey_to_register(text, hotkey_parses(text))
}

/// The hotkey to register, once it is known whether the configured one is one.
pub fn hotkey_to_register(text: &str, parses: bool) -> (r: String)
    ensures
        r@ == if parses {
            text@
        } else {
            "F9"@
        },
{
    if parses {
        text.to_owned()
    } else {
        "F9".to_owned()
    }
}

pub(crate) fn holds_text(list: &Vec<String>, s: &str) -> (r: bool)
    ensures
        r == texts(list@).contains(s@),
{
    let mut i: usize = 0;
    while i < list.len()
        invariant
            0 <= i <= list@.len(),
            forall|j: int| 0 <= j < i ==> #[trigger] texts(list@)[j] != s@,
        decreases list@.len() - i,
    {
        assert(texts(list@)[i as int] == list@[i as int]@);
        if str_eq(list[i].as_str(), s) {
            assert(texts(list@)[i as int] == s@);
            return true;
        }
        i = i + 1;
    }
    false
}

/// The font that the terminals use: the configured one where it is installed,
/// else the usual one, else the first there is; with none installed, the
/// configured one all the same.
pub open spec fn usable_font(families: Seq<Seq<char>>, cur: Seq<char>) -> Seq<char> {
    if cur.len() > 0 && families.contains(cur) {
        cur
    } else if families.contains("MesloLGS NF"@) {
        "MesloLGS NF"@
    } else if families.len() > 0 && families[0].len() > 0 {
        families[0]
    } else {
        cur
    }
}

/// The font that the terminals use.
pub fn pick_font(families: &Vec<String>, cur: &str) -> (r: String)
    ensures
        r@ == usable_font(texts(families@), cur@),
{
    if !cur.is_empty() && holds_text(families, cur) {
        return cur.to_owned();
    }
    if holds_text(families, "MesloLGS NF") {
        return "MesloLGS NF".to_owned();
    }
    if families.len() > 0 {
        assert(texts(families@)[0] == families@[0]@);
        if !families[0].as_str().is_empty() {
            return families[0].clone();
        }
    }
    cur.to_owned()
}

/// The fonts for bars and menus: the platform's own, then the installed ones.
pub open spec fn ui_font_list(installed: Seq<Seq<char>>) -> Seq<Seq<char>> {
    seq!["System Sans (default)"@] + installed
}

/// The font that bars and menus use: the configured one where it is there,
/// else the platform's own.
pub open spec fn usable_ui_font(list: Seq<Seq<char>>, cur: Seq<char>) -> Seq<char> {
    if list.contains(cur) {
        cur
    } else {
        seq![]
    }
}

impl App {
    /// Takes the fonts that are installed for terminals.
    pub fn fonts_found(&mut self, families: Vec<String>)
        requires
            old(self)@.wf(),
        ensures
            final(self)@ == (AppView {
                text: TextPrefsView {
                    font_family: usable_font(texts(families@), old(self)@.text.font_family),
                    font_families: texts(families@),
                    ..old(self)@.text
                },
                ..old(self)@
            }),
            final(self)@.wf(),
    {
        let name: String = pick_font(&families, self.text.font_family.as_str());
        self.text.font_family = name;
        self.text.font_families = families;
    }

    /// Takes the fonts that are installed for bars and menus.
    pub fn ui_fonts_found(&mut self, installed: Vec<String>)
        requires
            old(self)@.wf(),
        ensures
            final(self)@ == (AppView {
                text: TextPrefsView {
                    ui_font_family: usable_ui_font(
                        ui_font_list(texts(installed@)),
                        old(self)@.text.ui_font_family,
                    ),
                    ui_font_families: ui_font_list(texts(installed@)),
                    ..old(self)@.text
                },
                ..old(self)@
            }),
            final(self)@.wf(),
    {
        let ghost want = ui_font_list(texts(installed@));
        let mut list: Vec<String> = installed;
        list.insert(0, "System Sans (default)".to_owned());
        assert(texts(list@) =~= want);
        let keep: bool = holds_text(&list, self.text.ui_font_family.as_str());
        if !keep {
            self.text.ui_font_family.clear();
            assert(self.text.ui_font_family@ =~= seq![]);
        }
        self.text.ui_font_families = list;
    }
}

impl Stage {
    /// The main window exists: a docked one docks and slides in, another stands
    /// in the middle of its monitor, and where it can be drawn the summon effect
    /// runs.
    #[verifier::opaque]
    pub open spec fn opened(self, window: u64, drawable: bool, now: u64) -> Stage {
        let docks = self.prefs.window_mode == WindowMode::Dropdown;
        Stage {
            presence: Presence { main_window: Some(window), ..self.presence },
            timers: Timers {
                pending_dock_frames: if docks {
                    SETTLE_FRAMES
                } else {
                    self.timers.pending_dock_frames
                },
                slide_anim: if docks {
                    Some(now)
                } else {
                    self.timers.slide_anim
                },
                summon_pending: self.timers.summon_pending || drawable,
                summon_settle_until: if drawable {
                    Some((now + SUMMON_SETTLE) as u64)
                } else {
                    self.timers.summon_settle_until
                },
                ..self.timers
            },
            due: Due {
                window: Some(
                    if docks {
                        WindowCmd::PlaceDocked
                    } else {
                        WindowCmd::PlaceCentered
                    },
                ),
                ..self.due
            },
            ..self
        }
    }

    fn open(self, window: u64, drawable: bool, now: u64) -> (r: Stage)
        requires
            now <= LAST_INSTANT,
        ensures
            r == self.opened(window, drawable, now),
    {
        proof {
            reveal(Stage::opened);
        }
        let docks: bool = self.prefs.window_mode == WindowMode::Dropdown;
        let frames: u8 = if docks {
            SETTLE_FRAMES
        } else {
            self.timers.pending_dock_frames
        };
        let place: WindowCmd = if docks {
            WindowCmd::PlaceDocked
        } else {
            WindowCmd::PlaceCentered
        };
        let slide_anim: Option<u64> = if docks {
            Some(now)
        } else {
            self.timers.slide_anim
        };
        let summon_settle_until: Option<u64> = if drawable {
            Some(now + SUMMON_SETTLE)
        } else {
            self.timers.summon_settle_until
        };
        Stage {
            presence: Presence { main_window: Some(window), ..self.presence },
            timers: Timers {
                pending_dock_frames: frames,
                slide_anim,
                summon_pending: self.timers.summon_pending || drawable,
                summon_settle_until,
                ..self.timers
            },
            due: Due { window: Some(place), ..self.due },
            ..self
        }
    }
}

/// The first tab, as it opens.
pub open spec fn first_tab(id: u64) -> TabView {
    TabView {
        id,
        title: "Tab 1"@,
        default_title: "Tab 1"@,
        manually_renamed: false,
        activity: TabActivity::Idle,
    }
}

proof fn lemma_opened_keep(s: Stage, window: u64, drawable: bool, now: u64)
    ensures
        s.narrows_to(s.opened(window, drawable, now)),
{
    reveal(Stage::opened);
    lemma_keep(s, s.opened(window, drawable, now));
}

impl App {
    /// Whether the main window is still to be opened.
    pub fn wants_window(&self) -> (r: bool)
        ensures
            r == (self@.st.presence.main_window is None),
    {
        self.st.presence.main_window.is_none()
    }

    /// Notes that the main window exists; `drawable` tells that its surface
    /// does too. Where there is one already, nothing changes.
    pub fn window_opened(&mut self, window: u64, drawable: bool, now: u64)
        requires
            old(self)@.wf(),
            now <= LAST_INSTANT,
        ensures
            final(self)@ == if old(self)@.st.presence.main_window is None {
                AppView { st: old(self)@.st.opened(window, drawable, now), ..old(self)@ }
            } else {
                old(self)@
            },
            final(self)@.wf(),
    {
        if !self.wants_window() {
            return;
        }
        proof {
            lemma_opened_keep(self@.st, window, drawable, now);
            lemma_wf_narrow(self@, self@.st.opened(window, drawable, now));
        }
        self.st = self.st.open(window, drawable, now);
    }

    /// The first shell runs, as tab `id`; without one the application ends.
    pub fn first_shell(&mut self, id: Option<u64>)
        requires
            old(self)@.wf(),
            old(self)@.tabs.len() == 0,
        ensures
            final(self)@ == (match id {
                Some(id) => AppView {
                    tabs: seq![first_tab(id)],
                    active: 0,
                    st: old(self)@.st.paint_main(),
                    ..old(self)@
                },
                None => AppView {
                    st: Stage {
                        due: Due { exit: true, ..old(self)@.st.due },
                        ..old(self)@.st
                    },
                    ..old(self)@
                },
            }),
            old(self)@.indices_ok() ==> final(self)@.wf(),
    {
        match id {
            Some(id) => {
                let tab: Tab = Tab {
                    id,
                    title: "Tab 1".to_owned(),
                    default_title: "Tab 1".to_owned(),
                    manually_renamed: false,
                    activity: TabActivity::Idle,
                };
                self.tabs.push(tab);
                self.active = 0;
                self.st = self.st.paint_main();
                proof {
                    assert(tab@ == first_tab(id));
                    assert(tab_views(self.tabs@) =~= seq![first_tab(id)]);
                }
            },
            None => {
                self.st = Stage { due: Due { exit: true, ..self.st.due }, ..self.st };
            },
        }
    }
}

/// The first window is placed: docked at the top edge or in the middle of its
/// monitor, as its mode says.
pub proof fn law_first_open_is_placed(s: Stage, window: u64, drawable: bool, now: u64)
    ensures
        s.prefs.window_mode == WindowMode::Center ==> s.opened(window, drawable, now).due.window
            == Some(WindowCmd::PlaceCentered),
        s.prefs.window_mode == WindowMode::Dropdown ==> s.opened(window, drawable, now).due.window
            == Some(WindowCmd::PlaceDocked),
{
    reveal(Stage::opened);
}

/// The font that the terminals use is installed, if any is.
pub proof fn law_font_is_installed(families: Seq<Seq<char>>, cur: Seq<char>)
    requires
        families.len() > 0,
        families[0].len() > 0,
    ensures
        families.contains(usable_font(families, cur)),
{
    assert(families.contains(families[0]));
}

/// A font that is installed is kept.
pub proof fn law_installed_font_stays(families: Seq<Seq<char>>, cur: Seq<char>)
    requires
        cur.len() > 0,
        families.contains(cur),
    ensures
        usable_font(families, cur) == cur,
        usable_ui_font(ui_font_list(families), cur) == cur,
{
    let i = families.index_of(cur);
    assert(ui_font_list(families)[i + 1] == cur);
}

/// A font that is not installed gives way to the one that the program prefers,
/// and that to the first installed one.
pub proof fn law_missing_font_gives_way(families: Seq<Seq<char>>, cur: Seq<char>)
    requires
        !families.contains(cur) || cur.len() == 0,
    ensures
        families.contains("MesloLGS NF"@) ==> usable_font(families, cur) == "MesloLGS NF"@,
        !families.contains("MesloLGS NF"@) && families.len() > 0 && families[0].len() > 0
            ==> usable_font(families, cur) == families[0],
        families.len() == 0 ==> usable_font(families, cur) == cur,
{
}

/// The interface fonts are the installed ones behind the default; one that is
/// not among them gives way to the default.
pub proof fn law_interface_fonts(installed: Seq<Seq<char>>, cur: Seq<char>, i: int)
    ensures
        ui_font_list(installed).len() == installed.len() + 1,
        ui_font_list(installed)[0] == "System Sans (default)"@,
        0 <= i < installed.len() ==> ui_font_list(installed)[i + 1] == installed[i],
        !ui_font_list(installed).contains(cur) ==> usable_ui_font(ui_font_list(installed), cur)
            == Seq::<char>::empty(),
        ui_font_list(installed).contains(cur) ==> usable_ui_font(ui_font_list(installed), cur)
            == cur,
{
}

/// The first window is the main one from then on. A dropdown slides in and is
/// docked over the next frames; one that can be drawn starts its effect with
/// its first frame and settles for three tenths of a second.
pub proof fn law_first_window_opens(s: Stage, window: u64, drawable: bool, now: u64)
    requires
        now <= LAST_INSTANT,
    ensures
        ({
            let r = s.opened(window, drawable, now);
            &&& r.presence.main_window == Some(window) && r.presence.visible == s.presence.visible
            &&& s.prefs.window_mode == WindowMode::Dropdown ==> r.timers.slide_anim == Some(now)
                && r.timers.pending_dock_frames == 5
            &&& s.prefs.window_mode == WindowMode::Center ==> r.timers.slide_anim
                == s.timers.slide_anim && r.timers.pending_dock_frames
                == s.timers.pending_dock_frames
            &&& drawable ==> r.timers.summon_pending && r.timers.summon_settle_until == Some(
                (now + 300_000_000) as u64,
            )
            &&& !drawable ==> r.timers.summon_pending == s.timers.summon_pending
                && r.timers.summon_settle_until == s.timers.summon_settle_until
            &&& r.prefs == s.prefs && r.ui == s.ui
        }),
{
    reveal(Stage::opened);
}

/// The first tab is called the first, as any new one would be.
pub proof fn law_first_tab(id: u64)
    ensures
        first_tab(id).id == id,
        first_tab(id).title == seq!['T', 'a', 'b', ' ', '1'],
        first_tab(id).default_title == first_tab(id).title,
        !first_tab(id).manually_renamed,
        first_tab(id).activity == TabActivity::Idle,
        first_tab(id).title == crate::strip::default_title(1),
{
    reveal_strlit("Tab 1");
    reveal_strlit("Tab ");
    assert("Tab 1"@ =~= seq!['T', 'a', 'b', ' ', '1']);
    assert(crate::text::decimal(1) =~= seq!['1']);
    assert(crate::strip::default_title(1) =~= seq!['T', 'a', 'b', ' ', '1']);
}

} // verus!
