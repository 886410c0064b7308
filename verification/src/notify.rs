//! Telling the user that a command has finished.

use vstd::prelude::*;

use crate::presence::{Env, LAST_INSTANT};
use crate::state::{App, AppView, Stage};
use crate::text::{push_signed, signed_decimal};

use std::collections::HashMap;

verus! {

/// A tab or window notifies at most once in this time, in nanoseconds.
pub const NOTIFY_MIN_GAP: u64 = 2_000_000_000;

/// How urgently the task bar asks for the user.
#[derive(Debug, Clone, Copy, PartialEq, Eq, Structural)]
pub enum Attention {
    Critical,
    Informational,
}

/// A command that has finished: its exit code and running time where they are
/// known, and the last line that it wrote.
#[derive(Debug)]
pub struct CommandCompletion {
    pub exit_code: Option<i32>,
    /// The running time as the user reads it.
    pub duration: Option<String>,
    pub last_line: String,
}

impl CommandCompletion {
    /// The command is known to have failed.
    pub open spec fn has_failed(self) -> bool {
        self.exit_code matches Some(code) && code != 0
    }

    /// Whether the command is known to have failed.
    pub fn failed(&self) -> (r: bool)
        ensures
            r == self.has_failed(),
    {
        match self.exit_code {
            Some(code) => code != 0,
            None => false,
        }
    }
}

/// What became of the command, in words.
pub open spec fn status_text(failed: bool, exit_code: Option<i32>) -> Seq<char> {
    if !failed {
        "finished"@
    } else {
        match exit_code {
            Some(code) => "failed (exit "@ + signed_decimal(code as int) + ")"@,
            None => "failed"@,
        }
    }
}

/// The heading of a notification: who, what, and how long it took.
pub open spec fn summary_text(
    label: Seq<char>,
    failed: bool,
    exit_code: Option<i32>,
    duration: Seq<char>,
) -> Seq<char> {
    let head = label + " — "@ + status_text(failed, exit_code);
    if duration.len() == 0 {
        head
    } else {
        head + " · "@ + duration
    }
}

/// The running time, or nothing where it is not known.
pub open spec fn duration_text(d: Option<String>) -> Seq<char> {
    match d {
        Some(t) => t@,
        None => seq![],
    }
}

/// The heading and the body of the notification for a command.
pub fn build_notification_text(label: &str, c: &CommandCompletion, failed: bool) -> (r: (
    String,
    String,
))
    ensures
        r.0@ == summary_text(label@, failed, c.exit_code, duration_text(c.duration)),
        r.1@ == c.last_line@,
{
    let mut s: String = label.to_owned();
    s.append(" — ");
    if !failed {
        s.append("finished");
    } else {
        match c.exit_code {
            Some(code) => {
                let ghost before = s@;
                s.append("failed (exit ");
                push_signed(&mut s, code);
                s.append(")");
                proof {
                    assert(s@ =~= before + ("failed (exit "@ + signed_decimal(code as int) + ")"@));
                }
            },
            None => {
                s.append("failed");
            },
        }
    }
    if let Some(d) = &c.duration {
        if !d.as_str().is_empty() {
            s.append(" · ");
            s.append(d.as_str());
        }
    }
    (s, c.last_line.clone())
}

/// A failure asks with urgency, a success in passing.
pub fn attention_for(failed: bool) -> (r: Attention)
    ensures
        r == if failed {
            Attention::Critical
        } else {
            Attention::Informational
        },
{
    if failed {
        Attention::Critical
    } else {
        Attention::Informational
    }
}

/// The label that names a detached window's tab.
pub fn detached_label(title: &str) -> (r: String)
    ensures
        r@ == title@ + " (detached)"@,
{
    let mut s: String = title.to_owned();
    s.append(" (detached)");
    s
}

/// When each tab and each detached window last notified.
#[derive(Debug)]
pub struct NotifyLog {
    pub tabs: HashMap<u64, u64>,
    pub windows: HashMap<u64, u64>,
}

/// Who notifies: the main window's tab of this index, or a detached window.
#[derive(Debug, Clone, Copy, PartialEq, Eq, Structural)]
pub enum NotifyKey {
    MainTab(u64),
    Detached(u64),
}

impl NotifyLog {
    /// When `key` last notified.
    pub open spec fn last(self, key: NotifyKey) -> Option<u64> {
        match key {
            NotifyKey::MainTab(i) => if self.tabs@.contains_key(i) {
                Some(self.tabs@[i])
            } else {
                None
            },
            NotifyKey::Detached(w) => if self.windows@.contains_key(w) {
                Some(self.windows@[w])
            } else {
                None
            },
        }
    }

    /// An empty log.
    pub fn new() -> (r: NotifyLog)
        ensures
            forall|k: NotifyKey| #[trigger] r.last(k) is None,
    {
        NotifyLog { tabs: HashMap::new(), windows: HashMap::new() }
    }

    /// How long ago `key` last notified; a clock that went back counts as no
    /// time.
    pub fn since_last(&self, key: NotifyKey, now: u64) -> (r: Option<u64>)
        ensures
            r == (match self.last(key) {
                Some(t) => Some(
                    if now >= t {
                        (now - t) as u64
                    } else {
                        0
                    },
                ),
                None => None,
            }),
    {
        broadcast use vstd::std_specs::hash::group_hash_axioms;

        let at: Option<&u64> = match key {
            NotifyKey::MainTab(i) => self.tabs.get(&i),
            NotifyKey::Detached(w) => self.windows.get(&w),
        };
        match at {
            Some(t) => Some(
                if now >= *t {
                    now - *t
                } else {
                    0
                },
            ),
            None => None,
        }
    }

    /// Records that `key` notifies now.
    pub fn record(&mut self, key: NotifyKey, now: u64)
        ensures
            final(self).last(key) == Some(now),
            forall|k: NotifyKey| k != key ==> #[trigger] final(self).last(k) == old(self).last(k),
    {
        broadcast use vstd::std_specs::hash::group_hash_axioms;

        match key {
            NotifyKey::MainTab(i) => {
                self.tabs.insert(i, now);
            },
            NotifyKey::Detached(w) => {
                self.windows.insert(w, now);
            },
        }
    }
}

/// The tab that an auto-summon brings up: that of the first failure, or of the
/// last command where none failed. `fired` lists the tabs that notified, in
/// order, and whether their commands failed.
pub open spec fn summon_tab(fired: Seq<(usize, bool)>) -> Option<usize>
    decreases fired.len(),
{
    if fired.len() == 0 {
        None
    } else if exists|i: int| 0 <= i < fired.len() && (#[trigger] fired[i]).1 {
        let i = first_failure(fired, 0);
        Some(fired[i].0)
    } else {
        Some(fired.last().0)
    }
}

/// The first failure from `lo` on.
pub open spec fn first_failure(fired: Seq<(usize, bool)>, lo: int) -> int
    decreases fired.len() - lo,
{
    if lo < 0 || lo >= fired.len() || fired[lo].1 {
        lo
    } else {
        first_failure(fired, lo + 1)
    }
}

/// The tab that an auto-summon brings up.
pub fn pick_summon(fired: &Vec<(usize, bool)>) -> (r: Option<usize>)
    ensures
        r == summon_tab(fired@),
{
    let mut i: usize = 0;
    while i < fired.len()
        invariant
            0 <= i <= fired@.len(),
            first_failure(fired@, 0) == first_failure(fired@, i as int),
            forall|j: int| 0 <= j < i ==> !(#[trigger] fired@[j]).1,
        decreases fired@.len() - i,
    {
        if fired[i].1 {
            assert(fired@[i as int].1);
            return Some(fired[i].0);
        }
        i = i + 1;
    }
    if fired.len() == 0 {
        None
    } else {
        Some(fired[fired.len() - 1].0)
    }
}

impl AppView {
    /// The commands that notified bring up the main window, at most once: only
    /// where the user wants it and the window is hidden.
    pub open spec fn summoned_by(self, fired: Seq<(usize, bool)>, env: Env) -> AppView {
        match summon_tab(fired) {
            Some(t) if self.st.prefs.auto_summon_on_finish && !self.st.presence.visible => {
                let s = self.select_tab(t as int);
                AppView { st: s.st.visibility(true, env), ..s }
            },
            _ => self,
        }
    }
}

impl App {
    /// Brings the main window up for the commands that notified.
    pub fn summon_for(&mut self, fired: &Vec<(usize, bool)>, env: &Env)
        requires
            old(self)@.wf(),
            env.now <= LAST_INSTANT,
        ensures
            final(self)@ == old(self)@.summoned_by(fired@, *env),
            final(self)@.wf(),
    {
        if !self.st.prefs.auto_summon_on_finish || self.st.presence.visible {
            return;
        }
        if let Some(t) = pick_summon(fired) {
            self.select_tab(t);
            proof {
                lemma_visibility_wf(self@, true, *env);
            }
            self.st = self.st.set_visibility(true, env);
        }
    }
}

/// A notification on its way to the user.
#[derive(Debug)]
pub struct Notice {
    pub summary: String,
    pub body: String,
    pub failed: bool,
    pub attention: Attention,
}

impl Notice {
    /// The notification about the command `c` of the tab called `label`.
    pub open spec fn tells(self, label: Seq<char>, c: CommandCompletion) -> bool {
        &&& self.summary@ == summary_text(
            label,
            c.has_failed(),
            c.exit_code,
            duration_text(c.duration),
        )
        &&& self.body@ == c.last_line@
        &&& self.failed == c.has_failed()
        &&& self.attention == if c.has_failed() {
            Attention::Critical
        } else {
            Attention::Informational
        }
    }
}

fn notice(label: &str, c: &CommandCompletion) -> (r: Notice)
    ensures
        r.tells(label@, *c),
{
    let failed: bool = c.failed();
    let (summary, body): (String, String) = build_notification_text(label, c, failed);
    Notice { summary, body, failed, attention: attention_for(failed) }
}

impl App {
    /// Writes the notification for a command of tab `tab` and records that the
    /// tab notifies.
    pub fn notify_main(&self, log: &mut NotifyLog, tab: usize, c: &CommandCompletion, now: u64) -> (r:
        Notice)
        requires
            tab < self.tabs@.len(),
        ensures
            r.tells(self@.label(tab as int), *c),
            final(log).last(NotifyKey::MainTab(tab as u64)) == Some(now),
            forall|k: NotifyKey|
                k != NotifyKey::MainTab(tab as u64) ==> #[trigger] final(log).last(k) == old(log).last(
                    k,
                ),
    {
        log.record(NotifyKey::MainTab(tab as u64), now);
        let label: String = self.main_tab_label(tab);
        notice(label.as_str(), c)
    }

    /// Writes the notification for a command of the detached window at `pos`
    /// and records that the window notifies.
    pub fn notify_detached(
        &self,
        log: &mut NotifyLog,
        pos: usize,
        c: &CommandCompletion,
        now: u64,
    ) -> (r: Notice)
        requires
            pos < self.detached@.len(),
        ensures
            r.tells(self.detached@[pos as int].tab.title@ + " (detached)"@, *c),
            ({
                let key = NotifyKey::Detached(self.detached@[pos as int].window);
                &&& final(log).last(key) == Some(now)
                &&& forall|k: NotifyKey|
                    k != key ==> #[trigger] final(log).last(k) == old(log).last(k)
            }),
    {
        let d: &crate::state::Detached = &self.detached[pos];
        log.record(NotifyKey::Detached(d.window), now);
        let label: String = detached_label(d.tab.title.as_str());
        notice(label.as_str(), c)
    }
}

pub(crate) proof fn lemma_visibility_frame(s: Stage, want: bool, env: Env)
    ensures
        s.same_indices(s.visibility(want, env)),
{
    reveal(Stage::same_indices);
}

pub(crate) proof fn lemma_visibility_wf(v: AppView, want: bool, env: Env)
    requires
        v.wf(),
    ensures
        (AppView { st: v.st.visibility(want, env), ..v }).wf(),
{
    lemma_visibility_frame(v.st, want, env);
    crate::tabs::lemma_wf_stage(v, v.st.visibility(want, env));
}

/// Of several failures the first one decides which tab comes up, whatever
/// succeeded before it.
pub proof fn law_first_failure_wins(fired: Seq<(usize, bool)>, i: int)
    requires
        0 <= i < fired.len(),
        fired[i].1,
        forall|j: int| 0 <= j < i ==> !(#[trigger] fired[j]).1,
    ensures
        summon_tab(fired) == Some(fired[i].0),
{
    lemma_first_failure(fired, 0, i);
}

proof fn lemma_first_failure(fired: Seq<(usize, bool)>, lo: int, i: int)
    requires
        0 <= lo <= i < fired.len(),
        fired[i].1,
        forall|j: int| lo <= j < i ==> !(#[trigger] fired[j]).1,
    ensures
        first_failure(fired, lo) == i,
    decreases i - lo,
{
    if lo < i {
        lemma_first_failure(fired, lo + 1, i);
    }
}

/// A shown window is never summoned, and neither is one whose user did not ask
/// for it.
pub proof fn law_no_summon_unless_hidden_and_wanted(v: AppView, fired: Seq<(usize, bool)>, env: Env)
    requires
        v.st.presence.visible || !v.st.prefs.auto_summon_on_finish,
    ensures
        v.summoned_by(fired, env) == v,
{
}

/// Of commands that all succeeded the last one summons its tab; of none,
/// nothing does.
pub proof fn law_last_success_summons(fired: Seq<(usize, bool)>)
    ensures
        fired.len() == 0 ==> summon_tab(fired) is None,
        fired.len() > 0 && (forall|i: int| 0 <= i < fired.len() ==> !(#[trigger] fired[i]).1)
            ==> summon_tab(fired) == Some(fired[fired.len() - 1].0),
{
}

/// A hidden window that is wanted shows itself on the tab whose command
/// summoned it.
pub proof fn law_finished_command_summons(v: AppView, fired: Seq<(usize, bool)>, env: Env)
    requires
        v.st.prefs.auto_summon_on_finish,
        !v.st.presence.visible,
    ensures
        summon_tab(fired) is None ==> v.summoned_by(fired, env) == v,
        summon_tab(fired) matches Some(t) ==> v.summoned_by(fired, env).st.presence.visible && (t
            < v.tabs.len() ==> v.summoned_by(fired, env).active == t),
        v.summoned_by(fired, env).tabs == v.tabs,
{
}

/// A command failed if it left a code other than zero; one whose code is not
/// known did not.
pub proof fn law_failure_is_a_code(c: CommandCompletion)
    ensures
        c.exit_code is None ==> !c.has_failed(),
        c.exit_code == Some(0i32) ==> !c.has_failed(),
        (c.exit_code matches Some(n) && n != 0) ==> c.has_failed(),
{
}

/// What a notification says: the label, then how the command ended, then how
/// long it ran where that is known.
pub proof fn law_notification_text(label: Seq<char>, code: i32, took: Seq<char>)
    ensures
        summary_text(label, false, Some(code), seq![]) == label + seq![
            ' ',
            '—',
            ' ',
            'f',
            'i',
            'n',
            'i',
            's',
            'h',
            'e',
            'd',
        ],
        summary_text(label, false, None, seq![]) == summary_text(label, false, Some(code), seq![]),
        summary_text(label, true, None, seq![]) == label + seq![
            ' ',
            '—',
            ' ',
            'f',
            'a',
            'i',
            'l',
            'e',
            'd',
        ],
        summary_text(label, true, Some(code), seq![]) == summary_text(label, true, None, seq![])
            + seq![' ', '(', 'e', 'x', 'i', 't', ' '] + signed_decimal(code as int) + seq![')'],
        took.len() > 0 ==> summary_text(label, true, Some(code), took) == summary_text(
            label,
            true,
            Some(code),
            seq![],
        ) + seq![' ', '·', ' '] + took,
        took.len() > 0 ==> summary_text(label, false, None, took) == summary_text(
            label,
            false,
            None,
            seq![],
        ) + seq![' ', '·', ' '] + took,
{
    reveal_strlit(" — ");
    reveal_strlit(" · ");
    reveal_strlit("finished");
    reveal_strlit("failed");
    reveal_strlit("failed (exit ");
    reveal_strlit(")");
    assert(summary_text(label, false, Some(code), seq![]) =~= label + seq![
        ' ',
        '—',
        ' ',
        'f',
        'i',
        'n',
        'i',
        's',
        'h',
        'e',
        'd',
    ]);
    assert(summary_text(label, true, None, seq![]) =~= label + seq![
        ' ',
        '—',
        ' ',
        'f',
        'a',
        'i',
        'l',
        'e',
        'd',
    ]);
    assert(summary_text(label, true, Some(code), seq![]) =~= summary_text(label, true, None, seq![])
        + seq![' ', '(', 'e', 'x', 'i', 't', ' '] + signed_decimal(code as int) + seq![')']);
    assert(" · "@ =~= seq![' ', '·', ' ']);
}

/// A notification is urgent exactly if its command failed, and carries the last
/// line that the command wrote.
pub proof fn law_failures_are_urgent(n: Notice, label: Seq<char>, c: CommandCompletion)
    requires
        n.tells(label, c),
    ensures
        (c.exit_code matches Some(code) && code != 0) ==> n.attention == Attention::Critical
            && n.failed,
        !(c.exit_code matches Some(code) && code != 0) ==> n.attention == Attention::Informational
            && !n.failed,
        n.body@ == c.last_line@,
        n.summary@.len() > label.len() && n.summary@.take(label.len() as int) == label,
{
    reveal_strlit(" — ");
    assert(n.summary@.take(label.len() as int) =~= label);
}

/// A tab or a window notifies at most once in two seconds, and what one did is
/// not held against another.
pub proof fn law_notification_gap(log: NotifyLog, tab: u64, window: u64)
    ensures
        NOTIFY_MIN_GAP == 2_000_000_000,
        log.tabs@.contains_key(tab) ==> log.last(NotifyKey::MainTab(tab)) == Some(log.tabs@[tab]),
        !log.tabs@.contains_key(tab) ==> log.last(NotifyKey::MainTab(tab)) is None,
        log.windows@.contains_key(window) ==> log.last(NotifyKey::Detached(window)) == Some(
            log.windows@[window],
        ),
        !log.windows@.contains_key(window) ==> log.last(NotifyKey::Detached(window)) is None,
{
}

} // verus!
