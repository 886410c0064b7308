//! Login shells, their names, and the entry that starts the application at
//! login.

use vstd::prelude::*;

use crate::startup::holds_text;
use crate::state::texts;
use crate::text::{str_eq, trimmed};

verus! {

/// A character as it stands in a quoted argument of an `Exec=` line: the
/// reserved ones behind two backslashes, a backslash as four, a percent sign
/// doubled.
pub open spec fn exec_char(c: char) -> Seq<char> {
    if c == '\\' {
        seq!['\\', '\\', '\\', '\\']
    } else if c == '"' || c == '`' || c == '$' {
        seq!['\\', '\\', c]
    } else if c == '%' {
        seq!['%', '%']
    } else {
        seq![c]
    }
}

/// Each character of `s` in its written form, one behind the other.
pub open spec fn exec_chars(s: Seq<char>) -> Seq<char>
    decreases s.len(),
{
    if s.len() == 0 {
        seq![]
    } else {
        exec_chars(s.drop_last()) + exec_char(s.last())
    }
}

/// Quotes one argument for the `Exec=` line of a desktop entry.
pub fn desktop_exec_arg(path: &str) -> (r: String)
    ensures
        r@ == seq!['"'] + exec_chars(path@) + seq!['"'],
{
    let mut s: String = String::new();
    s.push('"');
    proof {
        assert(s@ =~= seq!['"'] + exec_chars(path@.take(0)));
    }
    for c in it: path.chars()
        invariant
            it.seq() == path@,
            s@ == seq!['"'] + exec_chars(path@.take(it.index())),
    {
        let ghost before = s@;
        if c == '\\' {
            s.append("\\\\\\\\");
            proof {
                reveal_strlit("\\\\\\\\");
                assert("\\\\\\\\"@ =~= exec_char(c));
            }
        } else if c == '"' || c == '`' || c == '$' {
            s.append("\\\\");
            s.push(c);
            proof {
                reveal_strlit("\\\\");
                assert(s@ =~= before + exec_char(c));
            }
        } else if c == '%' {
            s.append("%%");
            proof {
                reveal_strlit("%%");
                assert("%%"@ =~= exec_char(c));
            }
        } else {
            s.push(c);
            proof {
                assert(s@ =~= before + exec_char(c));
            }
        }
        proof {
            let t = path@.take(it.index() + 1);
            assert(t.drop_last() =~= path@.take(it.index()));
            assert(t.last() == c);
            assert(s@ =~= seq!['"'] + exec_chars(t));
        }
    }
    s.push('"');
    proof {
        assert(path@.take(path@.len() as int) =~= path@);
        assert(s@ =~= seq!['"'] + exec_chars(path@) + seq!['"']);
    }
    s
}

/// `base` and `part` as one path.
pub open spec fn path_joined(base: Seq<char>, part: Seq<char>) -> Seq<char> {
    if base.len() == 0 {
        part
    } else if base.last() == '/' {
        base + part
    } else {
        base.push('/') + part
    }
}

fn join_path(base: String, part: &str) -> (r: String)
    ensures
        r@ == path_joined(base@, part@),
{
    let mut s: String = base;
    let n: usize = s.as_str().unicode_len();
    if n > 0 && s.as_str().get_char(n - 1) != '/' {
        s.push('/');
    }
    proof {
        if n == 0 {
            assert(s@ + part@ =~= part@);
        }
    }
    s.append(part);
    s
}

/// The file whose presence makes the application start at login: below the
/// configuration directory that the environment names, else below the one in
/// the home directory, else below the working directory.
pub open spec fn autostart_file(xdg: Option<Seq<char>>, home: Option<Seq<char>>) -> Seq<char> {
    let base = match (xdg, home) {
        (Some(x), _) if x.len() > 0 => x,
        (_, Some(h)) => path_joined(h, ".config"@),
        _ => ".config"@,
    };
    path_joined(path_joined(base, "autostart"@), "jetty.desktop"@)
}

/// The file whose presence makes the application start at login.
pub fn autostart_path(xdg: Option<String>, home: Option<String>) -> (r: String)
    ensures
        r@ == autostart_file(
            match xdg {
                Some(s) => Some(s@),
                None => None,
            },
            match home {
                Some(s) => Some(s@),
                None => None,
            },
        ),
{
    let named: Option<String> = match xdg {
        Some(s) => if s.as_str().is_empty() {
            None
        } else {
            Some(s)
        },
        None => None,
    };
    let base: String = match named {
        Some(s) => s,
        None => match home {
            Some(h) => join_path(h, ".config"),
            None => ".config".to_owned(),
        },
    };
    join_path(join_path(base, "autostart"), "jetty.desktop")
}

/// The line in yellow that tells, in a new terminal, why another shell runs
/// than the one asked for.
pub fn notice_line(notice: &str) -> (r: String)
    ensures
        r@ == "\x1b[33m"@ + notice@ + "\x1b[0m\r\n"@,
{
    let mut s: String = "\x1b[33m".to_owned();
    s.append(notice);
    s.append("\x1b[0m\r\n");
    s
}

/// The desktop entry that starts the program at `exe` at login.
pub fn desktop_entry(exe: &str) -> (r: String)
    ensures
        r@ == entry_head() + (seq!['"'] + exec_chars(exe@) + seq!['"']) + entry_tail(),
{
    let mut s: String = "[Desktop Entry]\nType=Application\nName=JeTTY\nGenericName=Terminal Emulator\nComment=Blazing-fast GPU terminal with a center-summon hotkey (autostart: holds the F9 grab)\nExec=".to_owned();
    let arg: String = desktop_exec_arg(exe);
    s.append(arg.as_str());
    s.append("\nIcon=jetty\nTerminal=false\nCategories=System;TerminalEmulator;Utility;\nStartupWMClass=jetty\nX-GNOME-Autostart-enabled=true\n");
    s
}

/// The entry up to the command.
pub open spec fn entry_head() -> Seq<char> {
    "[Desktop Entry]\nType=Application\nName=JeTTY\nGenericName=Terminal Emulator\nComment=Blazing-fast GPU terminal with a center-summon hotkey (autostart: holds the F9 grab)\nExec="@
}

/// The entry behind the command.
pub open spec fn entry_tail() -> Seq<char> {
    "\nIcon=jetty\nTerminal=false\nCategories=System;TerminalEmulator;Utility;\nStartupWMClass=jetty\nX-GNOME-Autostart-enabled=true\n"@
}

/// How a written argument reads: the inverse of [`exec_chars`].
pub open spec fn read_exec(s: Seq<char>) -> Seq<char>
    decreases s.len(),
{
    if s.len() == 0 {
        seq![]
    } else if s[0] == '\\' && s.len() >= 4 && s[2] == '\\' {
        seq!['\\'] + read_exec(s.skip(4))
    } else if s[0] == '\\' && s.len() >= 3 {
        seq![s[2]] + read_exec(s.skip(3))
    } else if s[0] == '%' && s.len() >= 2 {
        seq!['%'] + read_exec(s.skip(2))
    } else {
        seq![s[0]] + read_exec(s.skip(1))
    }
}

proof fn lemma_exec_chars_front(s: Seq<char>)
    requires
        s.len() > 0,
    ensures
        exec_chars(s) == exec_char(s[0]) + exec_chars(s.skip(1)),
    decreases s.len(),
{
    if s.len() == 1 {
        assert(s.drop_last() =~= seq![]);
        assert(s.skip(1) =~= seq![]);
        assert(exec_chars(s) =~= exec_char(s[0]) + exec_chars(s.skip(1)));
    } else {
        lemma_exec_chars_front(s.drop_last());
        assert(s.drop_last().skip(1) =~= s.skip(1).drop_last());
        assert(s.skip(1).last() == s.last());
        assert(exec_chars(s) =~= exec_char(s[0]) + exec_chars(s.skip(1)));
    }
}

proof fn lemma_read_front(c: char, rest: Seq<char>)
    ensures
        read_exec(exec_char(c) + rest) == seq![c] + read_exec(rest),
{
    let w = exec_char(c) + rest;
    assert(w.skip(exec_char(c).len() as int) =~= rest);
    assert(w[0] == exec_char(c)[0]);
    if c == '\\' {
        assert(w[2] == '\\');
    } else if c == '"' || c == '`' || c == '$' {
        assert(w[2] == c);
    }
}

/// A written argument reads back as the path that it was made from.
pub proof fn law_exec_arg_reads_back(s: Seq<char>)
    ensures
        read_exec(exec_chars(s)) == s,
    decreases s.len(),
{
    if s.len() > 0 {
        lemma_exec_chars_front(s);
        lemma_read_front(s[0], exec_chars(s.skip(1)));
        law_exec_arg_reads_back(s.skip(1));
        assert(seq![s[0]] + s.skip(1) =~= s);
    } else {
        assert(exec_chars(s) =~= seq![]);
        assert(s =~= seq![]);
    }
}

/// A path without reserved characters is only put in quotes.
pub proof fn law_plain_path_verbatim(s: Seq<char>)
    requires
        forall|i: int|
            0 <= i < s.len() ==> #[trigger] s[i] != '\\' && s[i] != '"' && s[i] != '`' && s[i] != '$'
                && s[i] != '%',
    ensures
        exec_chars(s) == s,
    decreases s.len(),
{
    if s.len() > 0 {
        law_plain_path_verbatim(s.drop_last());
        assert(s.drop_last() + seq![s.last()] =~= s);
    }
}

/// Where the last component of `s.take(n)` begins: behind its last slash.
pub open spec fn component_start(s: Seq<char>, n: int) -> int
    decreases n,
{
    if n <= 0 {
        0
    } else if s[n - 1] == '/' {
        n
    } else {
        component_start(s, n - 1)
    }
}

/// The end of `s` without trailing slashes and "." components, except a "."
/// that the path begins with.
pub open spec fn trimmed_end(s: Seq<char>, n: int) -> int
    decreases n,
{
    if n > 0 && s[n - 1] == '/' {
        trimmed_end(s, n - 1)
    } else if n > 1 && s[n - 1] == '.' && s[n - 2] == '/' {
        trimmed_end(s, n - 1 - 1)
    } else {
        n
    }
}

/// The last component of a path: slashes and "." components at its end do not
/// count, and a path that ends in ".." or has no name has none.
pub open spec fn file_name(s: Seq<char>) -> Option<Seq<char>> {
    let end = trimmed_end(s, s.len() as int);
    let start = component_start(s, end);
    let name = s.subrange(start, end);
    if name.len() == 0 || name == seq!['.'] || name == seq!['.', '.'] {
        None
    } else {
        Some(name)
    }
}

proof fn lemma_start_bounds(s: Seq<char>, n: int)
    requires
        0 <= n <= s.len(),
    ensures
        0 <= component_start(s, n) <= n,
    decreases n,
{
    if n > 0 && s[n - 1] != '/' {
        lemma_start_bounds(s, n - 1);
    }
}

proof fn lemma_end_bounds(s: Seq<char>, n: int)
    requires
        0 <= n <= s.len(),
    ensures
        0 <= trimmed_end(s, n) <= n,
    decreases n,
{
    if n > 0 && s[n - 1] == '/' {
        lemma_end_bounds(s, n - 1);
    } else if n > 1 && s[n - 1] == '.' && s[n - 2] == '/' {
        lemma_end_bounds(s, n - 1 - 1);
    }
}

fn path_chars(s: &str) -> (r: Vec<char>)
    ensures
        r@ == s@,
{
    let mut v: Vec<char> = Vec::new();
    proof {
        assert(v@ =~= s@.take(0));
    }
    for c in it: s.chars()
        invariant
            it.seq() == s@,
            v@ == s@.take(it.index()),
    {
        v.push(c);
        proof {
            assert(s@.take(it.index() + 1) =~= s@.take(it.index()).push(c));
        }
    }
    proof {
        assert(s@.take(s@.len() as int) =~= s@);
    }
    v
}

/// The last component of a path.
pub fn base_name(path: &str) -> (r: Option<String>)
    ensures
        r is Some <==> file_name(path@) is Some,
        r matches Some(n) ==> n@ == file_name(path@)->0,
{
    let s: Vec<char> = path_chars(path);
    let mut end: usize = s.len();
    proof {
        lemma_end_bounds(s@, s@.len() as int);
    }
    loop
        invariant
            s@ == path@,
            0 <= end <= s@.len(),
            trimmed_end(s@, s@.len() as int) == trimmed_end(s@, end as int),
        ensures
            0 <= end <= s@.len(),
            trimmed_end(s@, s@.len() as int) == end,
        decreases end,
    {
        if end > 0 && s[end - 1] == '/' {
            end = end - 1;
        } else if end > 1 && s[end - 1] == '.' && s[end - 2] == '/' {
            end = end - 2;
        } else {
            break;
        }
    }
    let mut start: usize = end;
    proof {
        lemma_start_bounds(s@, end as int);
    }
    while start > 0 && s[start - 1] != '/'
        invariant
            0 <= start <= end <= s@.len(),
            component_start(s@, end as int) == component_start(s@, start as int),
        ensures
            0 <= start <= end <= s@.len(),
            component_start(s@, end as int) == start,
        decreases start,
    {
        start = start - 1;
    }
    let mut name: String = String::new();
    let mut k: usize = start;
    while k < end
        invariant
            0 <= start <= k <= end <= s@.len(),
            name@ == s@.subrange(start as int, k as int),
        decreases end - k,
    {
        name.push(s[k]);
        k = k + 1;
        proof {
            assert(s@.subrange(start as int, k as int) =~= s@.subrange(start as int, k - 1).push(
                s@[k - 1],
            ));
        }
    }
    proof {
        reveal_strlit(".");
        reveal_strlit("..");
        assert("."@ =~= seq!['.']);
        assert(".."@ =~= seq!['.', '.']);
    }
    if start == end || str_eq(name.as_str(), ".") || str_eq(name.as_str(), "..") {
        None
    } else {
        Some(name)
    }
}

/// The name that the settings panel shows for a shell: the last component of
/// its path, or "System default" for the empty one.
pub fn shell_display_name(shell: &str) -> (r: String)
    ensures
        r@ == shell_name(shell@),
{
    if shell.is_empty() {
        return "System default".to_owned();
    }
    match base_name(shell) {
        Some(n) => n,
        None => shell.to_owned(),
    }
}

/// The name that the settings panel shows for a shell.
pub open spec fn shell_name(shell: Seq<char>) -> Seq<char> {
    if shell.len() == 0 {
        "System default"@
    } else {
        match file_name(shell) {
            Some(n) => n,
            None => shell,
        }
    }
}

/// Where the line that ends before `n` begins.
pub open spec fn line_start(s: Seq<char>, n: int) -> int
    decreases n,
{
    if n <= 0 {
        0
    } else if s[n - 1] == '\n' {
        n
    } else {
        line_start(s, n - 1)
    }
}

/// The shells named in the lines that end before `n`: each line without the
/// white space around it, where it begins with a slash.
pub open spec fn shells_in(s: Seq<char>, n: int) -> Seq<Seq<char>>
    decreases n,
{
    if n < 0 || n > s.len() {
        seq![]
    } else {
        let start = line_start(s, n);
        let line = crate::text::trim(s.subrange(start, n));
        let before = if 0 < start <= n {
            shells_in(s, start - 1)
        } else {
            seq![]
        };
        if line.len() > 0 && line[0] == '/' {
            before.push(line)
        } else {
            before
        }
    }
}

proof fn lemma_line_start(s: Seq<char>, n: int)
    requires
        0 <= n <= s.len(),
    ensures
        0 <= line_start(s, n) <= n,
        forall|k: int| line_start(s, n) <= k < n ==> #[trigger] s[k] != '\n',
        line_start(s, n) > 0 ==> s[line_start(s, n) - 1] == '\n',
    decreases n,
{
    if n > 0 && s[n - 1] != '\n' {
        lemma_line_start(s, n - 1);
    }
}

/// The lines of the system's list of shells that name one.
pub fn candidate_shells(contents: &str) -> (r: Vec<String>)
    ensures
        texts(r@) == shells_in(contents@, contents@.len() as int),
{
    let mut out: Vec<String> = Vec::new();
    let mut line: String = String::new();
    let ghost s = contents@;
    proof {
        assert(line@ =~= s.subrange(0, 0));
        assert(texts(out@) =~= seq![]);
    }
    for c in it: contents.chars()
        invariant
            s == contents@,
            it.seq() == s,
            line@ == s.subrange(line_start(s, it.index()), it.index()),
            texts(out@) == if line_start(s, it.index()) > 0 {
                shells_in(s, line_start(s, it.index()) - 1)
            } else {
                seq![]
            },
    {
        let ghost n = it.index();
        proof {
            lemma_line_start(s, n);
        }
        if c == '\n' {
            push_shell(&mut out, &line);
            line.clear();
            proof {
                assert(line_start(s, n + 1) == n + 1);
                assert(line@ =~= s.subrange(n + 1, n + 1));
            }
        } else {
            line.push(c);
            proof {
                assert(line_start(s, n + 1) == line_start(s, n));
                assert(s.subrange(line_start(s, n), n + 1) =~= s.subrange(line_start(s, n), n).push(
                    s[n],
                ));
            }
        }
    }
    proof {
        lemma_line_start(s, s.len() as int);
    }
    push_shell(&mut out, &line);
    out
}

fn push_shell(out: &mut Vec<String>, line: &String)
    ensures
        ({
            let t = crate::text::trim(line@);
            texts(final(out)@) == if t.len() > 0 && t[0] == '/' {
                texts(old(out)@).push(t)
            } else {
                texts(old(out)@)
            }
        }),
{
    let t: String = trimmed(line.as_str());
    if !t.as_str().is_empty() && t.as_str().get_char(0) == '/' {
        let ghost tv = t@;
        out.push(t);
        proof {
            assert(texts(out@) =~= texts(old(out)@).push(tv));
        }
    }
}

/// Some listed shell has this name.
pub open spec fn named(shells: Seq<Seq<char>>, name: Seq<char>) -> bool {
    exists|i: int| 0 <= i < shells.len() && #[trigger] file_name(shells[i]) == Some(name)
}

/// The shells among the first `n` candidates that are offered: those that
/// exist, have a name, and are the first of that name.
pub open spec fn offered(cands: Seq<Seq<char>>, exist: Seq<bool>, n: int) -> Seq<Seq<char>>
    decreases n,
{
    if n <= 0 {
        seq![]
    } else {
        let before = offered(cands, exist, n - 1);
        let c = cands[n - 1];
        if exist[n - 1] && file_name(c) is Some && !named(before, file_name(c)->0) {
            before.push(c)
        } else {
            before
        }
    }
}

fn has_name(shells: &Vec<String>, name: &String) -> (r: bool)
    ensures
        r == named(texts(shells@), name@),
{
    let mut i: usize = 0;
    while i < shells.len()
        invariant
            0 <= i <= shells@.len(),
            forall|j: int|
                0 <= j < i ==> #[trigger] file_name(texts(shells@)[j]) != Some(name@),
        decreases shells@.len() - i,
    {
        let b: Option<String> = base_name(shells[i].as_str());
        assert(texts(shells@)[i as int] == shells@[i as int]@);
        if let Some(n) = b {
            if n == *name {
                assert(file_name(texts(shells@)[i as int]) == Some(name@));
                return true;
            }
        }
        i = i + 1;
    }
    false
}

/// The shells that are offered, given which of the candidates exist.
pub fn offer_shells(cands: &Vec<String>, exist: &Vec<bool>) -> (r: Vec<String>)
    requires
        exist@.len() == cands@.len(),
    ensures
        texts(r@) == offered(texts(cands@), exist@, cands@.len() as int),
{
    let mut out: Vec<String> = Vec::new();
    let mut i: usize = 0;
    proof {
        assert(texts(out@) =~= seq![]);
    }
    while i < cands.len()
        invariant
            0 <= i <= cands@.len(),
            exist@.len() == cands@.len(),
            texts(out@) == offered(texts(cands@), exist@, i as int),
        decreases cands@.len() - i,
    {
        assert(texts(cands@)[i as int] == cands@[i as int]@);
        if exist[i] {
            let b: Option<String> = base_name(cands[i].as_str());
            if let Some(n) = b {
                if !has_name(&out, &n) {
                    let ghost before = out@;
                    out.push(cands[i].clone());
                    proof {
                        assert(texts(out@) =~= texts(before).push(cands@[i as int]@));
                    }
                }
            }
        }
        i = i + 1;
    }
    out
}

/// The shells to try when the system lists none.
pub open spec fn usual_shells() -> Seq<Seq<char>> {
    seq!["/usr/bin/bash"@, "/usr/bin/zsh"@, "/usr/bin/fish"@, "/bin/bash"@]
}

/// The shells to try when the system lists none.
pub fn fallback_shells() -> (r: Vec<String>)
    ensures
        texts(r@) == usual_shells(),
{
    let mut v: Vec<String> = Vec::new();
    v.push("/usr/bin/bash".to_owned());
    v.push("/usr/bin/zsh".to_owned());
    v.push("/usr/bin/fish".to_owned());
    v.push("/bin/bash".to_owned());
    proof {
        assert(texts(v@) =~= usual_shells());
    }
    v
}

/// Which of the candidates exist, where `present` holds those that do.
pub open spec fn existing(cands: Seq<Seq<char>>, present: Seq<Seq<char>>) -> Seq<bool> {
    Seq::new(cands.len(), |i: int| present.contains(cands[i]))
}

/// The shells that are offered of the candidates, where `present` holds the
/// paths that exist.
pub open spec fn offered_of(cands: Seq<Seq<char>>, present: Seq<Seq<char>>) -> Seq<Seq<char>> {
    offered(cands, existing(cands, present), cands.len() as int)
}

/// The shells to choose from: those of the system's list, or the usual ones
/// where it has none to offer.
pub open spec fn detected(contents: Seq<char>, present: Seq<Seq<char>>) -> Seq<Seq<char>> {
    let listed = offered_of(shells_in(contents, contents.len() as int), present);
    if listed.len() > 0 {
        listed
    } else {
        offered_of(usual_shells(), present)
    }
}

fn offer_present(cands: &Vec<String>, present: &Vec<String>) -> (r: Vec<String>)
    ensures
        texts(r@) == offered_of(texts(cands@), texts(present@)),
{
    let mut exist: Vec<bool> = Vec::new();
    let mut i: usize = 0;
    while i < cands.len()
        invariant
            0 <= i <= cands@.len(),
            exist@.len() == i,
            forall|j: int|
                0 <= j < i ==> #[trigger] exist@[j] == texts(present@).contains(texts(cands@)[j]),
        decreases cands@.len() - i,
    {
        assert(texts(cands@)[i as int] == cands@[i as int]@);
        exist.push(holds_text(present, cands[i].as_str()));
        i = i + 1;
    }
    assert(exist@ =~= existing(texts(cands@), texts(present@)));
    offer_shells(cands, &exist)
}

/// The shells to choose from, by the text of the system's list, which is empty
/// where it cannot be read. `present` holds the paths that exist of those that
/// the list names and of the usual ones.
pub fn detect_shells(contents: &str, present: &Vec<String>) -> (r: Vec<String>)
    ensures
        texts(r@) == detected(contents@, texts(present@)),
{
    let listed: Vec<String> = offer_present(&candidate_shells(contents), present);
    if listed.len() > 0 {
        return listed;
    }
    offer_present(&fallback_shells(), present)
}

proof fn lemma_offered_among(cands: Seq<Seq<char>>, exist: Seq<bool>, n: int)
    requires
        0 <= n <= cands.len(),
        exist.len() == cands.len(),
    ensures
        forall|i: int|
            0 <= i < offered(cands, exist, n).len() ==> exists|j: int|
                0 <= j < n && exist[j] && #[trigger] cands[j] == #[trigger] offered(
                    cands,
                    exist,
                    n,
                )[i],
        offered(cands, exist, n).len() == 0 <==> forall|j: int|
            0 <= j < n ==> !(exist[j] && file_name(#[trigger] cands[j]) is Some),
    decreases n,
{
    if n > 0 {
        lemma_offered_among(cands, exist, n - 1);
        let before = offered(cands, exist, n - 1);
        let now = offered(cands, exist, n);
        assert forall|i: int| 0 <= i < now.len() implies exists|j: int|
            0 <= j < n && exist[j] && #[trigger] cands[j] == #[trigger] now[i] by {
            if i < before.len() {
                let j = choose|j: int|
                    0 <= j < n - 1 && exist[j] && #[trigger] cands[j] == before[i];
                assert(cands[j] == now[i]);
            } else {
                assert(cands[n - 1] == now[i]);
            }
        }
        if before.len() == 0 {
            assert(!named(before, file_name(cands[n - 1])->0));
        }
    }
}

proof fn lemma_listed_absolute(s: Seq<char>, n: int)
    ensures
        forall|i: int|
            0 <= i < shells_in(s, n).len() ==> (#[trigger] shells_in(s, n)[i]).len() > 0
                && shells_in(s, n)[i][0] == '/',
    decreases n,
{
    if 0 <= n <= s.len() {
        lemma_line_start(s, n);
        let start = line_start(s, n);
        if start > 0 {
            lemma_listed_absolute(s, start - 1);
        }
        let before = if start > 0 {
            shells_in(s, start - 1)
        } else {
            seq![]
        };
        let all = shells_in(s, n);
        assert forall|i: int| 0 <= i < all.len() implies (#[trigger] all[i]).len() > 0 && all[i][0]
            == '/' by {
            if i < before.len() {
                assert(all[i] == before[i]);
            }
        }
    }
}

proof fn lemma_usual_absolute()
    ensures
        forall|i: int|
            0 <= i < usual_shells().len() ==> (#[trigger] usual_shells()[i]).len() > 0
                && usual_shells()[i][0] == '/',
{
    reveal_strlit("/usr/bin/bash");
    reveal_strlit("/usr/bin/zsh");
    reveal_strlit("/usr/bin/fish");
    reveal_strlit("/bin/bash");
}

/// Every shell to choose from is an absolute path that exists, and no two have
/// the same name.
pub proof fn law_detected_shells(contents: Seq<char>, present: Seq<Seq<char>>)
    ensures
        forall|i: int|
            0 <= i < detected(contents, present).len() ==> {
                let p = #[trigger] detected(contents, present)[i];
                p.len() > 0 && p[0] == '/' && present.contains(p)
            },
        forall|i: int, j: int|
            0 <= i < j < detected(contents, present).len() ==> file_name(
                #[trigger] detected(contents, present)[i],
            ) != file_name(#[trigger] detected(contents, present)[j]),
{
    let listed = shells_in(contents, contents.len() as int);
    let usual = usual_shells();
    lemma_listed_absolute(contents, contents.len() as int);
    lemma_usual_absolute();
    lemma_offered_among(listed, existing(listed, present), listed.len() as int);
    lemma_offered_among(usual, existing(usual, present), usual.len() as int);
    law_offered_names_differ(listed, existing(listed, present), listed.len() as int);
    law_offered_names_differ(usual, existing(usual, present), usual.len() as int);
}

/// The usual shells are offered only where the system's list names none that
/// exists and has a name.
pub proof fn law_usual_shells_are_a_fallback(contents: Seq<char>, present: Seq<Seq<char>>)
    ensures
        ({
            let listed = shells_in(contents, contents.len() as int);
            let usable = exists|j: int|
                0 <= j < listed.len() && present.contains(#[trigger] listed[j]) && file_name(
                    listed[j],
                ) is Some;
            detected(contents, present) == if usable {
                offered_of(listed, present)
            } else {
                offered_of(usual_shells(), present)
            }
        }),
{
    let listed = shells_in(contents, contents.len() as int);
    let exist = existing(listed, present);
    lemma_offered_among(listed, exist, listed.len() as int);
    assert forall|j: int| 0 <= j < listed.len() implies exist[j] == present.contains(
        #[trigger] listed[j],
    ) by {}
}

/// No two shells that are offered have the same name.
pub proof fn law_offered_names_differ(cands: Seq<Seq<char>>, exist: Seq<bool>, n: int)
    requires
        0 <= n <= cands.len(),
        exist.len() == cands.len(),
    ensures
        forall|i: int, j: int|
            0 <= i < j < offered(cands, exist, n).len() ==> file_name(
                #[trigger] offered(cands, exist, n)[i],
            ) != file_name(#[trigger] offered(cands, exist, n)[j]),
        forall|i: int|
            0 <= i < offered(cands, exist, n).len() ==> file_name(
                #[trigger] offered(cands, exist, n)[i],
            ) is Some,
    decreases n,
{
    if n > 0 {
        law_offered_names_differ(cands, exist, n - 1);
        let before = offered(cands, exist, n - 1);
        let now = offered(cands, exist, n);
        assert forall|i: int, j: int| 0 <= i < j < now.len() implies file_name(#[trigger] now[i])
            != file_name(#[trigger] now[j]) by {
            if j == before.len() {
                assert(file_name(before[i]) != file_name(cands[n - 1]));
            }
        }
    }
}

/// The shell that follows or precedes `cur` in the row of the system default
/// and the offered ones; the row wraps around, and a shell that is not in it
/// counts as the default.
pub open spec fn cycled(offered: Seq<Seq<char>>, cur: Seq<char>, forward: bool) -> Seq<char> {
    let row = seq![Seq::<char>::empty()] + offered;
    let n = row.len() as int;
    let i = if row.contains(cur) {
        first_at(row, cur, 0)
    } else {
        0
    };
    row[if forward {
        (i + 1) % n
    } else {
        (i + n - 1) % n
    }]
}

/// The first place from `lo` on where `x` stands in `s`.
pub open spec fn first_at(s: Seq<Seq<char>>, x: Seq<char>, lo: int) -> int
    decreases s.len() - lo,
{
    if lo < 0 || lo >= s.len() || s[lo] == x {
        lo
    } else {
        first_at(s, x, lo + 1)
    }
}

/// The shell next to `cur` in the row that the settings panel cycles through.
pub fn cycle_shell(offered: &Vec<String>, cur: &str, forward: bool) -> (r: String)
    requires
        offered@.len() < usize::MAX,
    ensures
        r@ == cycled(texts(offered@), cur@, forward),
{
    let mut row: Vec<String> = Vec::new();
    row.push(String::new());
    let mut k: usize = 0;
    let ghost want = seq![Seq::<char>::empty()] + texts(offered@);
    proof {
        assert(texts(row@) =~= want.take(1));
    }
    while k < offered.len()
        invariant
            0 <= k <= offered@.len(),
            want == seq![Seq::<char>::empty()] + texts(offered@),
            texts(row@) == want.take(k + 1),
        decreases offered@.len() - k,
    {
        let ghost before = row@;
        row.push(offered[k].clone());
        proof {
            assert(texts(row@) =~= texts(before).push(offered@[k as int]@));
            assert(want[k + 1] == offered@[k as int]@);
            assert(want.take(k + 2) =~= want.take(k + 1).push(want[k + 1]));
        }
        k = k + 1;
    }
    proof {
        assert(want.take(want.len() as int) =~= want);
        assert(texts(row@).len() == row@.len());
    }
    let n: usize = row.len();
    let mut i: usize = 0;
    while i < n && !str_eq(row[i].as_str(), cur)
        invariant
            n == row@.len(),
            n == want.len(),
            texts(row@) == want,
            0 <= i <= n,
            first_at(want, cur@, 0) == first_at(want, cur@, i as int),
            forall|j: int| 0 <= j < i ==> #[trigger] want[j] != cur@,
        ensures
            0 <= i <= n,
            first_at(want, cur@, 0) == i,
            forall|j: int| 0 <= j < i ==> #[trigger] want[j] != cur@,
            i < n ==> want[i as int] == cur@,
        decreases n - i,
    {
        assert(texts(row@)[i as int] == row@[i as int]@);
        i = i + 1;
    }
    proof {
        if i < n {
            assert(want.contains(cur@));
        } else {
            assert(!want.contains(cur@));
        }
    }
    let at: usize = if i < n {
        i
    } else {
        0
    };
    let to: usize = if forward {
        if at + 1 == n {
            0
        } else {
            at + 1
        }
    } else if at == 0 {
        n - 1
    } else {
        at - 1
    };
    proof {
        crate::strip::lemma_wrap(at as int, n as int);
        assert(texts(row@)[to as int] == row@[to as int]@);
    }
    row[to].clone()
}

/// What a launcher would read otherwise is escaped: a backslash four times, a
/// quote, a backquote and a dollar behind two backslashes, a percent twice;
/// anything else stands for itself.
pub proof fn law_escaped_characters(c: char)
    ensures
        exec_char('\\') == seq!['\\', '\\', '\\', '\\'],
        exec_char('"') == seq!['\\', '\\', '"'],
        exec_char('`') == seq!['\\', '\\', '`'],
        exec_char('$') == seq!['\\', '\\', '$'],
        exec_char('%') == seq!['%', '%'],
        c != '\\' && c != '"' && c != '`' && c != '$' && c != '%' ==> exec_char(c) == seq![c],
{
}

/// A text is escaped character by character.
pub proof fn law_escaped_one_by_one(s: Seq<char>, c: char)
    ensures
        exec_chars(seq![]) == Seq::<char>::empty(),
        exec_chars(s.push(c)) == exec_chars(s) + exec_char(c),
{
    assert(s.push(c).drop_last() =~= s);
}

/// Joined paths have one slash between them, and none before a path that
/// stands alone.
pub proof fn law_paths_are_joined(base: Seq<char>, part: Seq<char>)
    ensures
        path_joined(seq![], part) == part,
        base.len() > 0 && base.last() == '/' ==> path_joined(base, part) == base + part,
        base.len() > 0 && base.last() != '/' ==> path_joined(base, part) == base + seq!['/']
            + part,
{
    if base.len() > 0 && base.last() != '/' {
        assert(path_joined(base, part) =~= base + seq!['/'] + part);
    }
}

/// The entry that starts the program at login lies in the configuration
/// directory that the session names, else in the one of the home directory.
pub proof fn law_autostart_file(xdg: Seq<char>, home: Seq<char>, other: Option<Seq<char>>)
    requires
        xdg.len() > 0,
        xdg.last() != '/',
        home.len() > 0,
        home.last() != '/',
    ensures
        autostart_file(Some(xdg), other) == xdg + "/autostart/jetty.desktop"@,
        autostart_file(None, Some(home)) == home + "/.config/autostart/jetty.desktop"@,
        autostart_file(Some(seq![]), Some(home)) == autostart_file(None, Some(home)),
        autostart_file(None, None) == ".config/autostart/jetty.desktop"@,
{
    reveal_strlit(".config");
    reveal_strlit("autostart");
    reveal_strlit("jetty.desktop");
    reveal_strlit("/autostart/jetty.desktop");
    reveal_strlit("/.config/autostart/jetty.desktop");
    reveal_strlit(".config/autostart/jetty.desktop");
    assert(autostart_file(Some(xdg), other) =~= xdg + "/autostart/jetty.desktop"@);
    assert(autostart_file(None, Some(home)) =~= home + "/.config/autostart/jetty.desktop"@);
    assert(autostart_file(None, None) =~= ".config/autostart/jetty.desktop"@);
}

proof fn lemma_last_component(s: Seq<char>, at: int, n: int)
    requires
        0 <= at <= n <= s.len(),
        at == 0 || s[at - 1] == '/',
        forall|i: int| at <= i < n ==> #[trigger] s[i] != '/',
    ensures
        component_start(s, n) == at,
    decreases n - at,
{
    if n > at {
        assert(s[n - 1] != '/');
        lemma_last_component(s, at, n - 1);
    }
}

/// The name of a file is what follows the last slash of its path; slashes at
/// the end of the path do not count.
pub proof fn law_file_name_is_the_last_part(dir: Seq<char>, name: Seq<char>)
    requires
        name.len() > 0,
        name != seq!['.'],
        name != seq!['.', '.'],
        forall|i: int| 0 <= i < name.len() ==> #[trigger] name[i] != '/',
    ensures
        file_name(name) == Some(name),
        file_name(dir.push('/') + name) == Some(name),
        file_name((dir.push('/') + name).push('/')) == Some(name),
{
    lemma_named(seq![], name);
    assert(seq![] + name =~= name);
    lemma_named(dir.push('/'), name);
}

proof fn lemma_named(dir: Seq<char>, name: Seq<char>)
    requires
        dir.len() == 0 || dir.last() == '/',
        name.len() > 0,
        name != seq!['.'],
        name != seq!['.', '.'],
        forall|i: int| 0 <= i < name.len() ==> #[trigger] name[i] != '/',
    ensures
        file_name(dir + name) == Some(name),
        file_name((dir + name).push('/')) == Some(name),
{
    let s = dir + name;
    let at = dir.len() as int;
    let n = s.len() as int;
    assert forall|i: int| at <= i < n implies #[trigger] s[i] != '/' by {
        assert(s[i] == name[i - at]);
    }
    if s[n - 1] == '.' && n > 1 && s[n - 2] == '/' {
        assert(name.len() == 1);
        assert(name =~= seq!['.']);
    }
    assert(trimmed_end(s, n) == n);
    lemma_last_component(s, at, n);
    assert(s.subrange(at, n) =~= name);
    let t = s.push('/');
    assert forall|i: int| at <= i < n implies #[trigger] t[i] != '/' by {
        assert(t[i] == s[i]);
    }
    assert(t[n] == '/');
    assert(trimmed_end(t, n) == n);
    assert(trimmed_end(t, n + 1) == n);
    lemma_last_component(t, at, n);
    assert(t.subrange(at, n) =~= name);
}

/// A shell shows as the name of its file; none stands for the system's.
pub proof fn law_shell_names(dir: Seq<char>, name: Seq<char>)
    requires
        name.len() > 0,
        name != seq!['.'],
        name != seq!['.', '.'],
        forall|i: int| 0 <= i < name.len() ==> #[trigger] name[i] != '/',
    ensures
        shell_name(dir.push('/') + name) == name,
        shell_name(name) == name,
        shell_name(seq![]) == "System default"@,
{
    law_file_name_is_the_last_part(dir, name);
}

proof fn lemma_line_start_agrees(s: Seq<char>, t: Seq<char>, n: int)
    requires
        0 <= n <= s.len(),
        n <= t.len(),
        s.take(n) == t.take(n),
    ensures
        line_start(s, n) == line_start(t, n),
    decreases n,
{
    if n > 0 {
        assert(s.take(n)[n - 1] == s[n - 1] && t.take(n)[n - 1] == t[n - 1]);
        assert(s.take(n - 1) =~= s.take(n).take(n - 1));
        assert(t.take(n - 1) =~= t.take(n).take(n - 1));
        lemma_line_start_agrees(s, t, n - 1);
    }
}

proof fn lemma_shells_agree(s: Seq<char>, t: Seq<char>, n: int)
    requires
        0 <= n <= s.len(),
        n <= t.len(),
        s.take(n) == t.take(n),
    ensures
        shells_in(s, n) == shells_in(t, n),
    decreases n,
{
    lemma_line_start_agrees(s, t, n);
    lemma_line_start(s, n);
    let start = line_start(s, n);
    assert(s.subrange(start, n) =~= s.take(n).subrange(start, n));
    assert(t.subrange(start, n) =~= t.take(n).subrange(start, n));
    if start > 0 {
        assert(s.take(start - 1) =~= s.take(n).take(start - 1));
        assert(t.take(start - 1) =~= t.take(n).take(start - 1));
        lemma_shells_agree(s, t, start - 1);
    }
}

proof fn lemma_last_line(s: Seq<char>, at: int, n: int)
    requires
        0 <= at <= n <= s.len(),
        at == 0 || s[at - 1] == '\n',
        forall|i: int| at <= i < n ==> #[trigger] s[i] != '\n',
    ensures
        line_start(s, n) == at,
    decreases n - at,
{
    if n > at {
        assert(s[n - 1] != '\n');
        lemma_last_line(s, at, n - 1);
    }
}

/// The list of shells is read line by line: a line that, trimmed, begins with a
/// slash names a shell, any other line none.
pub proof fn law_each_line_names_a_shell(before: Seq<char>, line: Seq<char>)
    requires
        forall|i: int| 0 <= i < line.len() ==> #[trigger] line[i] != '\n',
    ensures
        ({
            let path = crate::text::trim(line);
            let names = path.len() > 0 && path[0] == '/';
            let s = before.push('\n') + line;
            let read = shells_in(before, before.len() as int);
            &&& names ==> shells_in(s, s.len() as int) == read.push(path)
            &&& !names ==> shells_in(s, s.len() as int) == read
            &&& names ==> shells_in(line, line.len() as int) == seq![path]
            &&& !names ==> shells_in(line, line.len() as int).len() == 0
        }),
{
    let s = before.push('\n') + line;
    let m = before.len() as int;
    let n = s.len() as int;
    assert forall|i: int| m + 1 <= i < n implies #[trigger] s[i] != '\n' by {
        assert(s[i] == line[i - m - 1]);
    }
    assert(s[m] == '\n');
    lemma_last_line(s, m + 1, n);
    assert(s.subrange(m + 1, n) =~= line);
    assert(s.take(m) =~= before.take(m));
    lemma_shells_agree(s, before, m);
    lemma_last_line(line, 0, line.len() as int);
    assert(line.subrange(0, line.len() as int) =~= line);
    assert(Seq::<Seq<char>>::empty().push(crate::text::trim(line)) =~= seq![
        crate::text::trim(line),
    ]);
}

/// Every shell that is there is offered, under its name: by its own path, or by
/// an earlier one of the same name.
pub proof fn law_present_shells_are_offered(cands: Seq<Seq<char>>, exist: Seq<bool>, n: int, i: int)
    requires
        0 <= i < n <= cands.len(),
        exist.len() == cands.len(),
        exist[i],
        file_name(cands[i]) is Some,
    ensures
        named(offered(cands, exist, n), file_name(cands[i])->0),
    decreases n,
{
    let before = offered(cands, exist, n - 1);
    let now = offered(cands, exist, n);
    let name = file_name(cands[i])->0;
    if i < n - 1 {
        law_present_shells_are_offered(cands, exist, n - 1, i);
    }
    if named(before, name) {
        let k = choose|k: int| 0 <= k < before.len() && #[trigger] file_name(before[k]) == Some(
            name,
        );
        assert(now[k] == before[k]);
        assert(file_name(now[k]) == Some(name));
    } else {
        assert(i == n - 1);
        assert(now == before.push(cands[i]));
        assert(now[before.len() as int] == cands[i]);
        assert(file_name(now[before.len() as int]) == Some(name));
    }
}

/// The first shell that is there and has a name is offered first, and what was
/// offered stays as more is read.
pub proof fn law_offers_keep_their_order(cands: Seq<Seq<char>>, exist: Seq<bool>, n: int)
    requires
        0 < n <= cands.len(),
        exist.len() == cands.len(),
    ensures
        offered(cands, exist, n - 1).is_prefix_of(offered(cands, exist, n)),
        !exist[n - 1] ==> offered(cands, exist, n) == offered(cands, exist, n - 1),
        offered(cands, exist, n - 1).len() == 0 && exist[n - 1] && file_name(cands[n - 1]) is Some
            ==> offered(cands, exist, n)[0] == cands[n - 1],
{
    let before = offered(cands, exist, n - 1);
    let now = offered(cands, exist, n);
    assert(before =~= now.subrange(0, before.len() as int));
    if before.len() == 0 && file_name(cands[n - 1]) is Some {
        assert(!named(before, file_name(cands[n - 1])->0));
    }
}

/// The usual shells that are looked for, in this order.
pub proof fn law_usual_shells()
    ensures
        usual_shells().len() == 4,
        usual_shells()[0] == "/usr/bin/bash"@,
        usual_shells()[1] == "/usr/bin/zsh"@,
        usual_shells()[2] == "/usr/bin/fish"@,
        usual_shells()[3] == "/bin/bash"@,
{
}

proof fn lemma_first_at(s: Seq<Seq<char>>, k: int, lo: int)
    requires
        0 <= lo <= k < s.len(),
        forall|i: int| lo <= i < k ==> #[trigger] s[i] != s[k],
    ensures
        first_at(s, s[k], lo) == k,
    decreases k - lo,
{
    if lo < k {
        assert(s[lo] != s[k]);
        lemma_first_at(s, k, lo + 1);
    }
}

/// The shells are gone through in order, with the system's before the first
/// one, round at both ends; one that is not offered counts as the system's.
pub proof fn law_shells_are_cycled(shells: Seq<Seq<char>>, k: int, other: Seq<char>)
    requires
        0 <= k < shells.len(),
        forall|i: int| 0 <= i < shells.len() ==> (#[trigger] shells[i]).len() > 0,
        forall|i: int, j: int| 0 <= i < j < shells.len() ==> shells[i] != shells[j],
        !shells.contains(other),
    ensures
        cycled(shells, Seq::<char>::empty(), true) == shells[0],
        cycled(shells, Seq::<char>::empty(), false) == shells.last(),
        cycled(shells, other, true) == shells[0],
        k + 1 < shells.len() ==> cycled(shells, shells[k], true) == shells[k + 1],
        k + 1 == shells.len() ==> cycled(shells, shells[k], true).len() == 0,
        k > 0 ==> cycled(shells, shells[k], false) == shells[k - 1],
        k == 0 ==> cycled(shells, shells[k], false).len() == 0,
{
    let none = Seq::<char>::empty();
    let row = seq![none] + shells;
    let n = row.len() as int;
    assert(row[0] == none);
    assert forall|i: int| 1 <= i < n implies #[trigger] row[i] == shells[i - 1] by {}
    lemma_first_at(row, 0, 0);
    assert(row.contains(none));
    assert(row[k + 1] == shells[k]);
    assert(row.contains(shells[k]));
    assert forall|i: int| 0 <= i < k + 1 implies #[trigger] row[i] != row[k + 1] by {
        if i == 0 {
            assert(row[0].len() == 0);
        } else {
            assert(row[i] == shells[i - 1]);
        }
    }
    lemma_first_at(row, k + 1, 0);
    if row.contains(other) {
        let j = choose|j: int| 0 <= j < row.len() && row[j] == other;
        if j > 0 {
            assert(shells[j - 1] == other);
        }
        assert(other == none);
    }
    vstd::arithmetic::div_mod::lemma_small_mod(1, n as nat);
    vstd::arithmetic::div_mod::lemma_small_mod((n - 1) as nat, n as nat);
    if k + 1 < shells.len() {
        vstd::arithmetic::div_mod::lemma_small_mod((k + 2) as nat, n as nat);
        assert(row[k + 2] == shells[k + 1]);
    } else {
        vstd::arithmetic::div_mod::lemma_mod_self_0(n);
    }
    vstd::arithmetic::div_mod::lemma_mod_add_multiples_vanish(k, n);
    vstd::arithmetic::div_mod::lemma_small_mod(k as nat, n as nat);
    assert((k + 1 + n - 1) % n == k);
}

} // verus!
