//! Bytes on their way to a shell: pasted text, keystrokes and link targets.

use vstd::prelude::*;

use std::borrow::Cow;

verus! {

/// The sequence that ends a bracketed paste: ESC `[201~`.
#[verifier::opaque]
pub open spec fn paste_end() -> Seq<u8> {
    seq![0x1bu8, 0x5b, 0x32, 0x30, 0x31, 0x7e]
}

/// The sequence that begins a bracketed paste: ESC `[200~`.
#[verifier::opaque]
pub open spec fn paste_begin() -> Seq<u8> {
    seq![0x1bu8, 0x5b, 0x32, 0x30, 0x30, 0x7e]
}

/// The end sequence stands at `i`.
pub open spec fn end_at(s: Seq<u8>, i: int) -> bool {
    0 <= i && i + 6 <= s.len() && s.subrange(i, i + 6) == paste_end()
}

/// The end sequence stands somewhere in `s`.
pub open spec fn has_end(s: Seq<u8>) -> bool {
    exists|i: int| end_at(s, i)
}

/// `s` without the end sequences: read byte by byte, and whenever what was
/// read ends with one, that one is dropped.
pub open spec fn without_end(s: Seq<u8>) -> Seq<u8>
    decreases s.len(),
{
    if s.len() == 0 {
        s
    } else {
        let t = without_end(s.drop_last()).push(s.last());
        if end_at(t, t.len() - 6) {
            t.take(t.len() - 6)
        } else {
            t
        }
    }
}

fn is_end_at(s: &[u8], i: usize) -> (r: bool)
    requires
        i + 6 <= s@.len(),
    ensures
        r == end_at(s@, i as int),
{
    let r: bool = s[i] == 0x1b && s[i + 1] == 0x5b && s[i + 2] == 0x32 && s[i + 3] == 0x30 && s[i
        + 4] == 0x31 && s[i + 5] == 0x7e;
    proof {
        reveal(paste_end);
        let t = s@.subrange(i as int, i + 6);
        if r {
            assert(t =~= paste_end());
        } else if t == paste_end() {
            assert(t[0] == paste_end()[0] && t[1] == paste_end()[1] && t[2] == paste_end()[2]
                && t[3] == paste_end()[3] && t[4] == paste_end()[4] && t[5] == paste_end()[5]);
        }
    }
    r
}

fn contains_end(s: &[u8]) -> (r: bool)
    ensures
        r == has_end(s@),
{
    if s.len() < 6 {
        return false;
    }
    let mut i: usize = 0;
    while i <= s.len() - 6
        invariant
            s@.len() >= 6,
            0 <= i <= s@.len() - 5,
            forall|j: int| 0 <= j < i ==> !#[trigger] end_at(s@, j),
        decreases s@.len() - i,
    {
        if is_end_at(s, i) {
            return true;
        }
        i = i + 1;
    }
    assert(forall|j: int| !end_at(s@, j));
    false
}

/// Removes every end sequence from `bytes`, so that none forms anew across a
/// removed one. Where there is none the bytes are lent unchanged.
pub fn strip_paste_end(bytes: &[u8]) -> (r: Cow<'_, [u8]>)
    ensures
        !has_end(bytes@) ==> (r matches Cow::Borrowed(b) && b@ == bytes@),
        has_end(bytes@) ==> (r matches Cow::Owned(v) && v@ == without_end(bytes@)),
{
    if !contains_end(bytes) {
        return Cow::Borrowed(bytes);
    }
    Cow::Owned(drop_ends(bytes))
}

fn drop_ends(bytes: &[u8]) -> (out: Vec<u8>)
    ensures
        out@ == without_end(bytes@),
{
    let mut out: Vec<u8> = Vec::new();
    let mut i: usize = 0;
    while i < bytes.len()
        invariant
            0 <= i <= bytes@.len(),
            out@ == without_end(bytes@.take(i as int)),
        decreases bytes@.len() - i,
    {
        proof {
            assert(bytes@.take(i + 1).drop_last() =~= bytes@.take(i as int));
        }
        out.push(bytes[i]);
        let n: usize = out.len();
        if n >= 6 && is_end_at(out.as_slice(), n - 6) {
            out.truncate(n - 6);
            proof {
                assert(out@ =~= without_end(bytes@.take(i + 1)));
            }
        }
        i = i + 1;
    }
    proof {
        assert(bytes@.take(bytes@.len() as int) =~= bytes@);
    }
    out
}

/// What is left holds no end sequence.
pub proof fn law_stripped_has_no_end(s: Seq<u8>)
    ensures
        !has_end(without_end(s)),
    decreases s.len(),
{
    if s.len() > 0 {
        let d = without_end(s.drop_last());
        law_stripped_has_no_end(s.drop_last());
        let t = d.push(s.last());
        let r = without_end(s);
        assert forall|i: int| !end_at(r, i) by {
            if end_at(r, i) {
                if i + 6 <= d.len() {
                    assert(r.subrange(i, i + 6) =~= d.subrange(i, i + 6));
                    assert(end_at(d, i));
                } else {
                    assert(r == t);
                    assert(i == t.len() - 6);
                }
            }
        }
    }
}

/// Text without the end sequence is left as it is.
pub proof fn law_plain_paste_unchanged(s: Seq<u8>)
    requires
        !has_end(s),
    ensures
        without_end(s) == s,
    decreases s.len(),
{
    if s.len() > 0 {
        let d = s.drop_last();
        assert forall|i: int| !end_at(d, i) by {
            if end_at(d, i) {
                assert(d.subrange(i, i + 6) =~= s.subrange(i, i + 6));
                assert(end_at(s, i));
            }
        }
        law_plain_paste_unchanged(d);
        assert(d.push(s.last()) =~= s);
    }
}

/// Stripping twice is stripping once.
pub proof fn law_strip_idempotent(s: Seq<u8>)
    ensures
        without_end(without_end(s)) == without_end(s),
{
    law_stripped_has_no_end(s);
    law_plain_paste_unchanged(without_end(s));
}

/// The bytes that pasting `text` sends: nothing for no text; between the begin
/// and the end sequence, and without an end sequence in between, for a program
/// that asked for bracketed paste.
pub open spec fn pasted(text: Seq<u8>, bracketed: bool) -> Seq<u8> {
    if text.len() == 0 {
        seq![]
    } else if bracketed {
        paste_begin() + without_end(text) + paste_end()
    } else {
        text
    }
}

/// The bytes that pasting `text` sends to the shell.
pub fn paste_bytes(text: &[u8], bracketed: bool) -> (r: Vec<u8>)
    ensures
        r@ == pasted(text@, bracketed),
{
    let mut out: Vec<u8> = Vec::new();
    if text.len() == 0 {
        return out;
    }
    if !bracketed {
        out.extend_from_slice(text);
        assert(out@ =~= text@);
        return out;
    }
    out.push(0x1b);
    out.push(0x5b);
    out.push(0x32);
    out.push(0x30);
    out.push(0x30);
    out.push(0x7e);
    proof {
        reveal(paste_begin);
        assert(out@ =~= paste_begin());
    }
    match strip_paste_end(text) {
        Cow::Borrowed(b) => {
            proof {
                law_plain_paste_unchanged(text@);
            }
            out.extend_from_slice(b);
        },
        Cow::Owned(v) => {
            out.extend_from_slice(v.as_slice());
        },
    }
    proof {
        assert(out@ =~= paste_begin() + without_end(text@));
    }
    out.push(0x1b);
    out.push(0x5b);
    out.push(0x32);
    out.push(0x30);
    out.push(0x31);
    out.push(0x7e);
    proof {
        reveal(paste_end);
        assert(out@ =~= paste_begin() + without_end(text@) + paste_end());
    }
    out
}

/// Where the end sequence stands, byte by byte.
proof fn lemma_end_bytes(s: Seq<u8>, i: int)
    requires
        end_at(s, i),
    ensures
        s[i] == 0x1b,
        s[i + 1] == 0x5b,
        s[i + 2] == 0x32,
        s[i + 3] == 0x30,
        s[i + 4] == 0x31,
        s[i + 5] == 0x7e,
{
    reveal(paste_end);
    let e = s.subrange(i, i + 6);
    assert(e == paste_end());
    assert(s[i] == e[0] && s[i + 1] == e[1] && s[i + 2] == e[2] && s[i + 3] == e[3] && s[i + 4]
        == e[4] && s[i + 5] == e[5]);
}

/// The begin sequence and what follows it never form an end sequence that
/// starts in the begin sequence.
proof fn lemma_not_in_begin(c: Seq<u8>, i: int)
    requires
        0 <= i < 6,
    ensures
        !end_at(paste_begin() + c, i),
{
    reveal(paste_begin);
    let p = paste_begin() + c;
    if end_at(p, i) {
        lemma_end_bytes(p, i);
        assert(p[0] == 0x1b && p[1] == 0x5b && p[2] == 0x32 && p[3] == 0x30 && p[4] == 0x30 && p[5]
            == 0x7e);
    }
}

/// An end sequence in `c` followed by one lies in `c` or is the one behind it.
proof fn lemma_not_across(c: Seq<u8>, i: int)
    requires
        end_at(c + paste_end(), i),
    ensures
        end_at(c, i) || i == c.len(),
{
    reveal(paste_end);
    let p = c + paste_end();
    lemma_end_bytes(p, i);
    if i + 6 <= c.len() {
        assert(p.subrange(i, i + 6) =~= c.subrange(i, i + 6));
    } else if i < c.len() {
        assert(p[c.len() as int] == 0x1b);
    }
}

proof fn lemma_marker_lens()
    ensures
        paste_begin().len() == 6,
        paste_end().len() == 6,
{
    reveal(paste_begin);
    reveal(paste_end);
}

/// What stands at `i` behind six other bytes stands at `i - 6` without them.
proof fn lemma_shift(b: Seq<u8>, rest: Seq<u8>, e: Seq<u8>, i: int)
    requires
        b.len() == 6,
        6 <= i,
        i + 6 <= b.len() + rest.len(),
        (b + rest).subrange(i, i + 6) == e,
    ensures
        rest.subrange(i - 6, i) == e,
{
    assert((b + rest).subrange(i, i + 6) =~= rest.subrange(i - 6, i));
}

/// The same, of sequences that only share the place of an end sequence.
proof fn lemma_end_behind_begin(c: Seq<u8>, i: int)
    requires
        6 <= i,
        end_at(paste_begin() + (c + paste_end()), i),
    ensures
        end_at(c + paste_end(), i - 6),
{
    lemma_marker_lens();
    lemma_shift(paste_begin(), c + paste_end(), paste_end(), i);
}

proof fn lemma_ends_once(c: Seq<u8>, i: int)
    requires
        !end_at(c, i - 6),
        end_at(paste_begin() + (c + paste_end()), i),
    ensures
        i == c.len() + 6,
{
    if i < 6 {
        lemma_not_in_begin(c + paste_end(), i);
    } else {
        assert(end_at(c + paste_end(), i - 6)) by {
            lemma_end_behind_begin(c, i);
        }
        lemma_not_across(c, i - 6);
    }
}

/// A bracketed paste cannot be ended from within: the one end sequence in what
/// is sent is its last.
pub proof fn law_paste_ends_once(text: Seq<u8>, i: int)
    requires
        text.len() > 0,
        end_at(pasted(text, true), i),
    ensures
        i == pasted(text, true).len() - 6,
{
    let c = without_end(text);
    lemma_marker_lens();
    law_stripped_has_no_end(text);
    assert(!end_at(c, i - 6));
    assert(pasted(text, true) =~= paste_begin() + (c + paste_end()));
    lemma_ends_once(c, i);
}

/// A keystroke that shows: not empty, no escape sequence, no lone control
/// character.
pub open spec fn printable(bytes: Seq<u8>) -> bool {
    &&& bytes.len() > 0
    &&& bytes[0] != 0x1b
    &&& bytes.len() == 1 ==> bytes[0] >= 0x20 && bytes[0] != 0x7f
}

/// Whether the bytes of a keystroke show as text.
pub fn is_printable_keystroke(bytes: &[u8]) -> (r: bool)
    ensures
        r == printable(bytes@),
{
    if bytes.len() == 0 {
        return false;
    }
    if bytes[0] == 0x1b {
        return false;
    }
    if bytes.len() == 1 && (bytes[0] < 0x20 || bytes[0] == 0x7f) {
        return false;
    }
    true
}

/// The lower case of an ASCII letter; every other character as it is.
pub open spec fn ascii_lower(c: char) -> char {
    if 'A' <= c && c <= 'Z' {
        ((c as u32) + 32) as char
    } else {
        c
    }
}

/// The lower case of an ASCII letter; every other character as it is.
pub fn to_ascii_lower(c: char) -> (r: char)
    ensures
        r == ascii_lower(c),
{
    if 'A' <= c && c <= 'Z' {
        ((c as u8) + 32) as char
    } else {
        c
    }
}

/// `s` begins with `p`, whatever the case of ASCII letters.
pub open spec fn begins_like(s: Seq<char>, p: Seq<char>) -> bool {
    &&& p.len() <= s.len()
    &&& forall|i: int| 0 <= i < p.len() ==> ascii_lower(#[trigger] s[i]) == ascii_lower(p[i])
}

fn begins_with(s: &str, p: &str) -> (r: bool)
    ensures
        r == begins_like(s@, p@),
{
    let n: usize = p.unicode_len();
    if s.unicode_len() < n {
        return false;
    }
    let mut i: usize = 0;
    while i < n
        invariant
            n == p@.len(),
            n <= s@.len(),
            0 <= i <= n,
            forall|j: int| 0 <= j < i ==> ascii_lower(#[trigger] s@[j]) == ascii_lower(p@[j]),
        decreases n - i,
    {
        if to_ascii_lower(s.get_char(i)) != to_ascii_lower(p.get_char(i)) {
            assert(ascii_lower(s@[i as int]) != ascii_lower(p@[i as int]));
            return false;
        }
        i = i + 1;
    }
    true
}

/// The link may be opened: it begins with `http://`, `https://` or `file://`.
pub open spec fn openable(url: Seq<char>) -> bool {
    begins_like(url, "http://"@) || begins_like(url, "https://"@) || begins_like(url, "file://"@)
}

/// Whether a link may be handed to the system's opener.
pub fn url_scheme_allowed(url: &str) -> (r: bool)
    ensures
        r == openable(url@),
{
    begins_with(url, "http://") || begins_with(url, "https://") || begins_with(url, "file://")
}

/// `b` is the last character boundary of `bytes` that is not behind `max`.
pub open spec fn is_floor(bytes: Seq<u8>, max: int, b: int) -> bool {
    &&& 0 <= b <= bytes.len()
    &&& b <= max
    &&& vstd::utf8::is_char_boundary(bytes, b)
    &&& forall|j: int|
        b < j <= max && j <= bytes.len() ==> !#[trigger] vstd::utf8::is_char_boundary(bytes, j)
}

/// The last character boundary of `s` that is not behind `max`.
pub fn floor_char_boundary(s: &str, max: usize) -> (r: usize)
    ensures
        is_floor(vstd::utf8::encode_utf8(s@), max as int, r as int),
        vstd::utf8::encode_utf8(s@).len() <= max ==> r == vstd::utf8::encode_utf8(s@).len(),
{
    proof {
        vstd::utf8::encode_utf8_valid_utf8(s@);
        vstd::utf8::is_char_boundary_start_end_of_seq(vstd::utf8::encode_utf8(s@));
    }
    let n: usize = s.as_bytes().len();
    if n <= max {
        return n;
    }
    let mut b: usize = max;
    while b > 0 && !s.is_char_boundary(b)
        invariant
            n == vstd::utf8::encode_utf8(s@).len(),
            0 <= b <= max < n,
            vstd::utf8::is_char_boundary(vstd::utf8::encode_utf8(s@), 0),
            forall|j: int|
                b < j <= max ==> !#[trigger] vstd::utf8::is_char_boundary(vstd::utf8::encode_utf8(s@), j),
        ensures
            0 <= b <= max < n,
            vstd::utf8::is_char_boundary(vstd::utf8::encode_utf8(s@), b as int),
            forall|j: int|
                b < j <= max ==> !#[trigger] vstd::utf8::is_char_boundary(vstd::utf8::encode_utf8(s@), j),
        decreases b,
    {
        b = b - 1;
    }
    b
}

/// The longest beginning of `s` that has at most `max` bytes and cuts through
/// no character.
pub fn cap_text(s: &str, max: usize) -> (r: &str)
    ensures
        exists|b: int|
            is_floor(vstd::utf8::encode_utf8(s@), max as int, b) && vstd::utf8::encode_utf8(r@)
                == #[trigger] vstd::utf8::encode_utf8(s@).subrange(0, b),
{
    let b: usize = floor_char_boundary(s, max);
    let (head, _tail): (&str, &str) = s.split_at(b);
    proof {
        assert(vstd::utf8::encode_utf8(head@) == vstd::utf8::encode_utf8(s@).subrange(0, b as int));
    }
    head
}

/// The cap is one place only.
pub proof fn law_floor_is_unique(bytes: Seq<u8>, max: int, a: int, b: int)
    requires
        is_floor(bytes, max, a),
        is_floor(bytes, max, b),
    ensures
        a == b,
{
}

/// A paste for a program that asked for it stands between the two marks; any
/// other goes as it is; nothing pastes nothing.
pub proof fn law_paste_is_framed(text: Seq<u8>)
    requires
        text.len() > 0,
        !has_end(text),
    ensures
        pasted(text, true) == seq![0x1bu8, 0x5b, 0x32, 0x30, 0x30, 0x7e] + text + seq![
            0x1bu8,
            0x5b,
            0x32,
            0x30,
            0x31,
            0x7e,
        ],
        pasted(text, false) == text,
        pasted(seq![], true) == Seq::<u8>::empty(),
        pasted(seq![], false) == Seq::<u8>::empty(),
{
    law_plain_paste_unchanged(text);
    reveal(paste_end);
    reveal(paste_begin);
}

/// A mark at the end of a paste is cut, and nothing before it.
pub proof fn law_end_mark_is_cut(text: Seq<u8>)
    requires
        !has_end(text),
    ensures
        without_end(text + seq![0x1bu8, 0x5b, 0x32, 0x30, 0x31, 0x7e]) == text,
{
    let mark = seq![0x1bu8, 0x5b, 0x32, 0x30, 0x31, 0x7e];
    let most = text + mark.take(5);
    lemma_no_end_before_the_last(text);
    law_plain_paste_unchanged(most);
    let all = text + mark;
    assert(all.drop_last() =~= most);
    let t = most.push(all.last());
    assert(t =~= all);
    assert(end_at(t, t.len() - 6)) by {
        reveal(paste_end);
        assert(t.subrange(t.len() - 6, t.len() as int) =~= mark);
    }
    assert(t.take(t.len() - 6) =~= text);
}

proof fn lemma_no_end_before_the_last(text: Seq<u8>)
    requires
        !has_end(text),
    ensures
        !has_end(text + seq![0x1bu8, 0x5b, 0x32, 0x30, 0x31, 0x7e].take(5)),
{
    let mark = seq![0x1bu8, 0x5b, 0x32, 0x30, 0x31, 0x7e];
    let part = mark.take(5);
    let most = text + part;
    assert forall|i: int| !end_at(most, i) by {
        if end_at(most, i) {
            reveal(paste_end);
            let found = most.subrange(i, i + 6);
            assert(found[5] == 0x7e);
            assert(most[i + 5] == found[5]);
            if i + 6 <= text.len() {
                assert(text.subrange(i, i + 6) =~= found);
                assert(end_at(text, i));
            } else {
                assert(most[i + 5] == part[i + 5 - text.len()]);
                assert(part[i + 5 - text.len()] == mark[i + 5 - text.len()]);
            }
        }
    }
}

/// What flashes the caret: one byte that can be seen, or more that do not begin
/// with Escape.
pub proof fn law_printable(b: u8, bytes: Seq<u8>)
    ensures
        printable(seq![b]) <==> 0x20 <= b && b != 0x7f,
        bytes.len() > 1 ==> (printable(bytes) <==> bytes[0] != 0x1b),
        !printable(seq![]),
{
}

/// Capital letters count as their small ones, and nothing else is changed.
pub proof fn law_lower(c: char)
    ensures
        ascii_lower('A') == 'a',
        ascii_lower('Z') == 'z',
        'A' <= c && c <= 'Z' ==> ascii_lower(c) as int == c as int + 32,
        !('A' <= c && c <= 'Z') ==> ascii_lower(c) == c,
{
}

/// Web addresses and files may be opened, however their scheme is written, and
/// no other scheme.
pub proof fn law_openable(rest: Seq<char>, url: Seq<char>)
    ensures
        openable("http://"@ + rest),
        openable("https://"@ + rest),
        openable("file://"@ + rest),
        openable("HTTPS://"@ + rest),
        openable(url) ==> url.len() >= 7,
        openable(url) ==> (url[0] == 'h' || url[0] == 'H' || url[0] == 'f' || url[0] == 'F'),
        openable(url) && (url[0] == 'f' || url[0] == 'F') ==> (url[1] == 'i' || url[1] == 'I')
            && url[4] == ':' && url[5] == '/' && url[6] == '/',
        openable(url) && (url[0] == 'h' || url[0] == 'H') ==> (url[1] == 't' || url[1] == 'T') && (
        url[3] == 'p' || url[3] == 'P') && ((url[4] == ':' && url[5] == '/' && url[6] == '/') || ((
        url[4] == 's' || url[4] == 'S') && url.len() >= 8 && url[5] == ':' && url[6] == '/'
            && url[7] == '/')),
{
    reveal_strlit("http://");
    reveal_strlit("https://");
    reveal_strlit("file://");
    reveal_strlit("HTTPS://");
    let a = "http://"@;
    let b = "https://"@;
    let c = "file://"@;
    let d = "HTTPS://"@;
    assert(begins_like(a + rest, a));
    assert(begins_like(b + rest, b));
    assert(begins_like(c + rest, c));
    assert(begins_like(d + rest, b));
    if begins_like(url, a) {
        lemma_spelled(url, a);
    }
    if begins_like(url, b) {
        lemma_spelled(url, b);
    }
    if begins_like(url, c) {
        lemma_spelled(url, c);
    }
}

proof fn lemma_spelled(s: Seq<char>, p: Seq<char>)
    requires
        begins_like(s, p),
    ensures
        forall|i: int|
            0 <= i < p.len() ==> (#[trigger] s[i] == p[i] || ('a' <= p[i] && p[i] <= 'z'
                && s[i] as int == p[i] as int - 32) || ('A' <= p[i] && p[i] <= 'Z')),
{
    assert forall|i: int| 0 <= i < p.len() implies (#[trigger] s[i] == p[i] || ('a' <= p[i] && p[i]
        <= 'z' && s[i] as int == p[i] as int - 32) || ('A' <= p[i] && p[i] <= 'Z')) by {
        assert(ascii_lower(s[i]) == ascii_lower(p[i]));
        law_lower(s[i]);
        law_lower(p[i]);
    }
}

/// The floor of a length is the greatest character boundary within it: itself
/// where it is one, and no less than any other.
pub proof fn law_floor_is_the_greatest_boundary(bytes: Seq<u8>, max: int, b: int, j: int)
    requires
        is_floor(bytes, max, b),
    ensures
        0 <= b <= max && b <= bytes.len(),
        vstd::utf8::is_char_boundary(bytes, b),
        0 <= j <= max && j <= bytes.len() && vstd::utf8::is_char_boundary(bytes, j) ==> j <= b,
        0 <= max <= bytes.len() && vstd::utf8::is_char_boundary(bytes, max) ==> b == max,
{
}

} // verus!
