//! The application's state as plain values, and its mathematical view.
//!
//! Instants are nanoseconds on the application's monotonic clock; windows and
//! tabs are named by numbers that the windowing side hands out.

use vstd::prelude::*;

use crate::effect::SummonEffect;
use crate::mode::WindowMode;
use crate::zone::{CursorIcon, ResizeZone};

verus! {

/// Unseen output or a bell on an inactive tab.
#[derive(Debug, Clone, Copy, PartialEq, Eq, Structural)]
pub enum TabActivity {
    Idle,
    Output,
    Bell,
}

/// One terminal session, named by `id`, with its titles and its indicator.
#[derive(Debug)]
pub struct Tab {
    pub id: u64,
    /// The displayed title.
    pub title: String,
    /// The "Tab N" title that comes back when the shell clears its own.
    pub default_title: String,
    /// Once set, titles from the shell are ignored for good.
    pub manually_renamed: bool,
    pub activity: TabActivity,
}

/// View of a [`Tab`].
pub struct TabView {
    pub id: u64,
    pub title: Seq<char>,
    pub default_title: Seq<char>,
    pub manually_renamed: bool,
    pub activity: TabActivity,
}

impl View for Tab {
    type V = TabView;

    open spec fn view(&self) -> TabView {
        TabView {
            id: self.id,
            title: self.title@,
            default_title: self.default_title@,
            manually_renamed: self.manually_renamed,
            activity: self.activity,
        }
    }
}

/// A window of its own that holds one tab.
#[derive(Debug)]
pub struct Detached {
    pub window: u64,
    pub tab: Tab,
    pub ui: DetachedUi,
}

/// The interaction state of a detached window.
#[derive(Debug, Clone, Copy)]
pub struct DetachedUi {
    pub focused: bool,
    pub occluded: bool,
    pub selecting: bool,
    pub dragging_scrollbar: bool,
    /// A press on the title bar is held.
    pub bar_drag: bool,
    /// A plain press was handed to a program that reads the mouse.
    pub grabbed: bool,
    pub menu_open: bool,
    pub menu_hover: Option<usize>,
    pub link_hover: bool,
    pub link_cell: Option<(usize, usize)>,
    pub resize_zone: ResizeZone,
    pub caret_anim: Option<u64>,
    pub reflow_pending_at: Option<u64>,
    pub last_bar_click: Option<u64>,
    /// The pointer is over the cross in the title bar.
    pub close_hover: bool,
    /// Withdraw this window's request for the user's attention.
    pub calm: bool,
    /// A repaint of this window is asked for.
    pub paint: bool,
    /// Recompute the link under this window's pointer.
    pub relink: bool,
    /// Fit this window's grid and pseudo-terminal to its size.
    pub reflow: bool,
    /// The pointer shape to set in this window.
    pub cursor: Option<CursorIcon>,
}

/// View of a [`Detached`] window.
pub struct DetachedView {
    pub window: u64,
    pub tab: TabView,
    pub ui: DetachedUi,
}

impl View for Detached {
    type V = DetachedView;

    open spec fn view(&self) -> DetachedView {
        DetachedView { window: self.window, tab: self.tab@, ui: self.ui }
    }
}

/// Where the windows are and which of them holds the focus.
#[derive(Debug, Clone, Copy)]
pub struct Presence {
    /// The main window, once it exists.
    pub main_window: Option<u64>,
    /// The settings window, while it is open.
    pub settings_window: Option<u64>,
    /// Whether the main window is summoned.
    pub visible: bool,
    /// Whether it is covered or minimised though summoned.
    pub main_occluded: bool,
    pub main_focused: bool,
    pub last_focused_window: Option<u64>,
    pub switching_to_settings: bool,
    pub switching_to_detached: bool,
    /// Where the main window stood when it was last hidden.
    pub last_pos: Option<(i32, i32)>,
    /// The position re-asserted while `pending_center_frames` counts down.
    pub pending_center_pos: Option<(i32, i32)>,
}

/// A keyboard cursor over the viewport and the scrollback.
#[derive(Debug, Clone, Copy)]
pub struct CopyMode {
    pub row: usize,
    pub col: usize,
    pub selecting: bool,
    pub line_mode: bool,
    /// Buffer line and column where the selection began.
    pub anchor_line: i64,
    pub anchor_col: usize,
}

/// The menus, popups and bars over the main window's grid.
#[derive(Debug, Clone, Copy)]
pub struct Overlays {
    pub welcome_open: bool,
    pub help_open: bool,
    pub confirm_quit: bool,
    /// The tab whose closing awaits confirmation.
    pub confirm_close: Option<usize>,
    /// The tab whose title is being edited.
    pub renaming: Option<usize>,
    pub context_menu: bool,
    pub menu_hover: Option<usize>,
    /// The tab whose menu is open.
    pub tab_menu: Option<usize>,
    /// Whether the open tab menu has a "Detach" row.
    pub tab_menu_detach: bool,
    pub tab_menu_hover: Option<usize>,
    pub palette_open: bool,
    pub search_open: bool,
    /// The stored search matches may be stale.
    pub search_dirty: bool,
    pub copy_mode: Option<CopyMode>,
}

/// A press that began on a tab; `tearing` once it left the strip far enough.
#[derive(Debug, Clone, Copy)]
pub struct TabDrag {
    pub idx: usize,
    pub tearing: bool,
}

/// The sliders of the effects page.
#[derive(Debug, Clone, Copy, PartialEq, Eq, Structural)]
pub enum FxSlider {
    CrtCurvature,
    CrtScanline,
    CrtMask,
    CrtBloom,
    CrtChromatic,
    CrtVignette,
    CaretDur,
    TintR,
    TintG,
    TintB,
    CaretColorR,
    CaretColorG,
    CaretColorB,
}

/// What the pointer is doing in the main and in the settings window.
#[derive(Debug, Clone, Copy)]
pub struct Pointer {
    pub selecting: bool,
    pub dragging_scrollbar: bool,
    pub tab_drag: Option<TabDrag>,
    /// A plain press was handed to a program that reads the mouse.
    pub grabbed: bool,
    pub link_hover: bool,
    pub link_cell: Option<(usize, usize)>,
    pub resize_cursor: ResizeZone,
    pub last_strip_click: Option<u64>,
    /// Until when, and in which window, the hint on Shift+drag shows.
    pub shift_hint_until: Option<(u64, u64)>,
    /// Before this instant the hint does not come again.
    pub shift_hint_cooldown: Option<u64>,
    pub dragging_slider: bool,
    pub dragging_radius: bool,
    pub dragging_dropdown: bool,
    pub dragging_dropdown_width: bool,
    pub active_fx_drag: Option<FxSlider>,
}

/// Running animations, deadlines and frame countdowns.
#[derive(Debug, Clone, Copy)]
pub struct Timers {
    pub summon_pending: bool,
    pub summon_anim: Option<u64>,
    pub slide_anim: Option<u64>,
    pub caret_anim: Option<u64>,
    pub summon_settle_until: Option<u64>,
    pub settings_paint_until: Option<u64>,
    pub pending_autohide_at: Option<u64>,
    pub reflow_pending_at: Option<u64>,
    pub reflow_resized_at: Option<u64>,
    pub pending_reload_at: Option<u64>,
    pub search_refresh_at: Option<u64>,
    pub perf_idle_at: Option<u64>,
    pub perf_idle_shown: bool,
    pub pending_dock_frames: u8,
    pub pending_center_frames: u8,
}

/// The persisted settings that are no text and no fraction.
#[derive(Debug, Clone, Copy)]
pub struct Prefs {
    pub summon_effect: SummonEffect,
    pub window_mode: WindowMode,
    pub tab_bar_bottom: bool,
    pub focus_autohide: bool,
    pub scrollback_lines: usize,
    pub launch_at_login: bool,
    pub show_welcome: bool,
    pub show_perf_hud: bool,
    pub notify_on_finish: bool,
    pub notify_min_seconds: u64,
    pub notify_only_on_failure: bool,
    pub auto_summon_on_finish: bool,
    pub osc52_allow_paste: bool,
    pub hot_reload: bool,
    pub fx: FxToggles,
}

/// The switches of the visual effects.
#[derive(Debug, Clone, Copy)]
pub struct FxToggles {
    pub crt_enabled: bool,
    pub crt_animate_roll: bool,
    pub crt_flicker: bool,
    pub crt_jitter: bool,
    pub caret_flash_enabled: bool,
    pub caret_glow_enabled: bool,
}

/// The settings panel: its page, its lists and the reload guard.
#[derive(Debug, Clone, Copy)]
pub struct Panel {
    pub settings_tab: usize,
    pub theme_idx: usize,
    pub theme_dropdown_open: bool,
    pub theme_scroll_offset: usize,
    pub font_scroll_offset: usize,
    pub ui_font_scroll_offset: usize,
    /// While set, nothing is written to the configuration file.
    pub reloading: bool,
    /// Hash of the configuration text that was last written or read.
    pub last_written: Option<u64>,
}

/// What the main window is told to do.
#[derive(Debug, Clone, Copy, PartialEq, Eq, Structural)]
pub enum WindowCmd {
    /// Focus the window that is already shown.
    Raise,
    /// Show it at this position and focus it.
    ShowAt(i32, i32),
    /// Show it in the middle of its monitor and focus it.
    ShowCentered,
    /// Show it, dock it at the top edge and focus it.
    ShowDocked,
    /// Put it in the middle of its monitor.
    PlaceCentered,
    /// Dock it at the top edge.
    PlaceDocked,
    /// Take it off the screen.
    Hide,
}

/// Work that the windowing side owes after an event. The terminals' searches
/// and selections are seen to before what the event asks for, the rest after.
#[derive(Debug, Clone, Copy)]
pub struct Due {
    /// End the event loop.
    pub exit: bool,
    pub paint_main: bool,
    pub paint_settings: bool,
    /// Repaint every detached window.
    pub paint_detached: bool,
    /// Write the configuration file.
    pub persist: bool,
    /// Recompute the link under the pointer.
    pub relink: bool,
    /// Push the theme into every terminal.
    pub restyle: bool,
    /// Fit every grid and pseudo-terminal to its window.
    pub reflow: bool,
    /// Read the configuration and the themes again.
    pub reload: bool,
    /// Dock the main window at the top edge.
    pub redock: bool,
    /// Forget the fraction of a wheel step that was left over.
    pub reset_scroll: bool,
    /// Fit this tab to the main window's grid.
    pub fit: Option<u64>,
    /// Drop the search state of this tab's terminal.
    pub search_clear: Option<u64>,
    /// Search this tab's scrollback anew.
    pub search_refresh: Option<u64>,
    /// Drop the text selection of this tab's terminal.
    pub selection_clear: Option<u64>,
    pub window: Option<WindowCmd>,
    /// The pointer shape to set in the main window.
    pub cursor: Option<CursorIcon>,
    /// Withdraw the request for the user's attention.
    pub calm: bool,
    /// Push the scrollback limit into every terminal.
    pub rescroll: bool,
    /// Give the fonts of the terminals, bars and menus to every window.
    pub refont: bool,
}

/// What the command palette offers.
#[derive(Debug, Clone, Copy, PartialEq, Eq, Structural)]
pub enum PaletteCmd {
    NewTab,
    CloseTab,
    NextTab,
    PrevTab,
    DetachTab,
    OpenSettings,
    FontUp,
    FontDown,
    FontReset,
    OpacityUp,
    OpacityDown,
    ToggleCrt,
    ToggleCrtRoll,
    ToggleCrtFlicker,
    ToggleCrtJitter,
    ToggleCaretFlash,
    ToggleCaretGlow,
    TogglePerfHud,
    ShowWelcome,
    Search,
    HintMode,
    CopyMode,
    PrevPrompt,
    NextPrompt,
    Copy,
    Paste,
    ToggleLaunchAtLogin,
    ResetKeybindings,
    Hide,
    Quit,
    SetTheme(usize),
    SelectTab(usize),
    Reattach(usize),
}

/// The command palette: the query, the commands that match it, the selection
/// and the first visible row of `rows`.
#[derive(Debug)]
pub struct Palette {
    pub query: String,
    pub hits: Vec<PaletteCmd>,
    pub selected: usize,
    pub scroll: usize,
    /// How many rows are visible at once.
    pub rows: u32,
}

/// View of the [`Palette`].
pub struct PaletteView {
    pub query: Seq<char>,
    pub hits: Seq<PaletteCmd>,
    pub selected: int,
    pub scroll: int,
    pub rows: int,
}

impl View for Palette {
    type V = PaletteView;

    open spec fn view(&self) -> PaletteView {
        PaletteView {
            query: self.query@,
            hits: self.hits@,
            selected: self.selected as int,
            scroll: self.scroll as int,
            rows: self.rows as int,
        }
    }
}

/// What a labelled piece of text on the screen is.
#[derive(Debug, Clone, Copy, PartialEq, Eq, Structural)]
pub enum TokenKind {
    Url,
    Path,
    Hash,
    Ipv4,
}

/// A labelled piece of text on the screen.
#[derive(Debug)]
pub struct HintToken {
    pub kind: TokenKind,
    pub text: String,
}

/// Hint mode: the tokens, their labels and the letters typed so far.
#[derive(Debug)]
pub struct HintState {
    pub tokens: Vec<HintToken>,
    pub labels: Vec<String>,
    pub typed: String,
}

/// View of a [`HintState`].
pub struct HintView {
    pub tokens: Seq<(TokenKind, Seq<char>)>,
    pub labels: Seq<Seq<char>>,
    pub typed: Seq<char>,
}

/// The kinds and texts of a sequence of tokens.
pub open spec fn token_views(s: Seq<HintToken>) -> Seq<(TokenKind, Seq<char>)> {
    s.map_values(|t: HintToken| (t.kind, t.text@))
}

/// The characters of a sequence of strings.
pub open spec fn texts(s: Seq<String>) -> Seq<Seq<char>> {
    s.map_values(|t: String| t@)
}

impl View for HintState {
    type V = HintView;

    open spec fn view(&self) -> HintView {
        HintView {
            tokens: token_views(self.tokens@),
            labels: texts(self.labels@),
            typed: self.typed@,
        }
    }
}

/// The persisted settings that are texts, and the fonts to choose from.
#[derive(Debug)]
pub struct TextPrefs {
    pub summon_hotkey: String,
    /// The shell for new tabs; empty for the system's own choice.
    pub shell: String,
    pub font_family: String,
    /// The font of bars and menus; empty for the platform's own.
    pub ui_font_family: String,
    /// The fonts that the terminal can use.
    pub font_families: Vec<String>,
    /// The fonts for bars and menus; the first entry stands for the platform's
    /// own.
    pub ui_font_families: Vec<String>,
}

/// View of the [`TextPrefs`].
pub struct TextPrefsView {
    pub summon_hotkey: Seq<char>,
    pub shell: Seq<char>,
    pub font_family: Seq<char>,
    pub ui_font_family: Seq<char>,
    pub font_families: Seq<Seq<char>>,
    pub ui_font_families: Seq<Seq<char>>,
}

impl View for TextPrefs {
    type V = TextPrefsView;

    open spec fn view(&self) -> TextPrefsView {
        TextPrefsView {
            summon_hotkey: self.summon_hotkey@,
            shell: self.shell@,
            font_family: self.font_family@,
            ui_font_family: self.ui_font_family@,
            font_families: texts(self.font_families@),
            ui_font_families: texts(self.ui_font_families@),
        }
    }
}

/// Everything about the application that is no text and no list.
#[derive(Debug, Clone, Copy)]
pub struct Stage {
    pub presence: Presence,
    pub ui: Overlays,
    pub pointer: Pointer,
    pub timers: Timers,
    pub prefs: Prefs,
    pub panel: Panel,
    pub due: Due,
}

/// The whole application.
#[derive(Debug)]
pub struct App {
    pub tabs: Vec<Tab>,
    /// Index of the active tab.
    pub active: usize,
    pub detached: Vec<Detached>,
    /// The title being typed while a tab is renamed.
    pub rename_buf: String,
    pub palette: Palette,
    pub hint: Option<HintState>,
    pub text: TextPrefs,
    pub st: Stage,
}

/// View of the [`App`].
pub struct AppView {
    pub tabs: Seq<TabView>,
    pub active: int,
    pub detached: Seq<DetachedView>,
    pub rename_buf: Seq<char>,
    pub palette: PaletteView,
    pub hint: Option<HintView>,
    pub text: TextPrefsView,
    pub st: Stage,
}

/// The view of hint mode, while it is on.
#[verifier::opaque]
pub open spec fn hint_view(h: Option<HintState>) -> Option<HintView> {
    match h {
        Some(h) => Some(h@),
        None => None,
    }
}

/// The views of a sequence of tabs.
pub open spec fn tab_views(s: Seq<Tab>) -> Seq<TabView> {
    s.map_values(|t: Tab| t@)
}

/// The views of a sequence of detached windows.
pub open spec fn detached_views(s: Seq<Detached>) -> Seq<DetachedView> {
    s.map_values(|d: Detached| d@)
}

impl View for App {
    type V = AppView;

    open spec fn view(&self) -> AppView {
        AppView {
            tabs: tab_views(self.tabs@),
            active: self.active as int,
            detached: detached_views(self.detached@),
            rename_buf: self.rename_buf@,
            palette: self.palette@,
            hint: hint_view(self.hint),
            text: self.text@,
            st: self.st,
        }
    }
}

/// Puts `ui` into the detached window at `i`.
pub fn set_ui(list: &mut Vec<Detached>, i: usize, ui: DetachedUi)
    requires
        i < old(list)@.len(),
    ensures
        detached_views(final(list)@) == detached_views(old(list)@).update(
            i as int,
            DetachedView { ui, ..detached_views(old(list)@)[i as int] },
        ),
        final(list)@.len() == old(list)@.len(),
{
    let ghost before = list@;
    list[i].ui = ui;
    proof {
        assert(detached_views(list@) =~= detached_views(before).update(
            i as int,
            DetachedView { ui, ..detached_views(before)[i as int] },
        ));
    }
}

/// Gives every detached window the interaction state that `f` makes of its
/// index and the state it has.
pub(crate) fn map_uis<F: Fn(usize, DetachedUi) -> DetachedUi>(list: &mut Vec<Detached>, f: F)
    requires
        forall|i: usize, ui: DetachedUi| #[trigger] f.requires((i, ui)),
    ensures
        final(list)@.len() == old(list)@.len() <= usize::MAX,
        forall|i: int|
            0 <= i < old(list)@.len() ==> ({
                let was = detached_views(old(list)@)[i];
                let is = #[trigger] detached_views(final(list)@)[i];
                is == (DetachedView { ui: is.ui, ..was }) && f.ensures((i as usize, was.ui), is.ui)
            }),
{
    let ghost v = detached_views(list@);
    let n: usize = list.len();
    let mut i: usize = 0;
    while i < n
        invariant
            0 <= i <= n,
            n == list@.len(),
            n == v.len(),
            forall|i: usize, ui: DetachedUi| #[trigger] f.requires((i, ui)),
            detached_views(list@).len() == n,
            forall|j: int| i <= j < n ==> #[trigger] detached_views(list@)[j] == v[j],
            forall|j: int|
                0 <= j < i ==> ({
                    let is = #[trigger] detached_views(list@)[j];
                    is == (DetachedView { ui: is.ui, ..v[j] }) && f.ensures(
                        (j as usize, v[j].ui),
                        is.ui,
                    )
                }),
        decreases n - i,
    {
        let ui: DetachedUi = list[i].ui;
        assert(detached_views(list@)[i as int].ui == ui);
        let next: DetachedUi = f(i, ui);
        set_ui(list, i, next);
        i = i + 1;
    }
}

/// A tab and a detached window are seen as they are.
pub proof fn law_tabs_are_seen_as_they_are(t: Tab, d: Detached)
    ensures
        t@.id == t.id,
        t@.title == t.title@,
        t@.default_title == t.default_title@,
        t@.manually_renamed == t.manually_renamed,
        t@.activity == t.activity,
        d@.window == d.window,
        d@.tab == d.tab@,
        d@.ui == d.ui,
{
}

/// The palette, the labels and the texts of the settings are seen as they are.
pub proof fn law_parts_are_seen_as_they_are(p: Palette, h: HintState, t: TextPrefs)
    ensures
        p@.query == p.query@,
        p@.hits == p.hits@,
        p@.selected == p.selected,
        p@.scroll == p.scroll,
        p@.rows == p.rows,
        h@.typed == h.typed@,
        h@.labels == texts(h.labels@),
        h@.tokens == token_views(h.tokens@),
        t@.summon_hotkey == t.summon_hotkey@,
        t@.shell == t.shell@,
        t@.font_family == t.font_family@,
        t@.ui_font_family == t.ui_font_family@,
        t@.font_families == texts(t.font_families@),
        t@.ui_font_families == texts(t.ui_font_families@),
{
}

/// The application is seen as it is, tab for tab and window for window.
pub proof fn law_application_is_seen_as_it_is(a: App, i: int)
    ensures
        a@.active == a.active,
        a@.st == a.st,
        a@.rename_buf == a.rename_buf@,
        a@.palette == a.palette@,
        a@.text == a.text@,
        a.hint is None <==> a@.hint is None,
        a@.tabs.len() == a.tabs@.len(),
        a@.detached.len() == a.detached@.len(),
        0 <= i < a.tabs@.len() ==> a@.tabs[i] == a.tabs@[i]@,
        0 <= i < a.detached@.len() ==> a@.detached[i] == a.detached@[i]@,
{
    reveal(hint_view);
}

/// Texts keep their number and order.
pub proof fn law_texts_keep_their_order(s: Seq<String>, t: Seq<HintToken>, i: int)
    ensures
        texts(s).len() == s.len(),
        0 <= i < s.len() ==> texts(s)[i] == s[i]@,
        token_views(t).len() == t.len(),
        0 <= i < t.len() ==> token_views(t)[i] == (t[i].kind, t[i].text@),
{
}

} // verus!
