//! Text helpers: substring tests, UTF-8 decoding and the all-added patch.
use vstd::prelude::*;

verus! {

/// `t` occurs somewhere inside `s`.
pub open spec fn has_infix(s: Seq<char>, t: Seq<char>) -> bool {
    exists|i: int| 0 <= i && i + t.len() <= s.len() && #[trigger] s.subrange(i, i + t.len()) == t
}

/// Whether `t` occurs in `s` at character offset `i`.
fn matches_at(s: &str, n: usize, t: &str, m: usize, i: usize) -> (r: bool)
    requires
        n == s@.len(),
        m == t@.len(),
        i + m <= n,
    ensures
        r == (s@.subrange(i as int, i + m) == t@),
{
    let mut j: usize = 0;
    while j < m
        invariant
            n == s@.len(),
            m == t@.len(),
            i + m <= n,
            j <= m,
            forall|k: int| 0 <= k < j ==> s@[i + k] == t@[k],
        decreases m - j,
    {
        if s.get_char(i + j) != t.get_char(j) {
            assert(s@.subrange(i as int, i + m)[j as int] != t@[j as int]);
            return false;
        }
        j = j + 1;
    }
    assert(s@.subrange(i as int, i + m) =~= t@);
    true
}

/// Whether `t` occurs inside `s`.
pub fn contains_text(s: &str, t: &str) -> (r: bool)
    ensures
        r == has_infix(s@, t@),
{
    let n = s.unicode_len();
    let m = t.unicode_len();
    if m > n {
        return false;
    }
    if m == 0 {
        assert(s@.subrange(0, 0 + t@.len() as int) =~= t@);
        return true;
    }
    let mut i: usize = 0;
    while i <= n - m
        invariant
            n == s@.len(),
            m == t@.len(),
            0 < m <= n,
            i <= n - m + 1,
            forall|k: int| 0 <= k < i ==> #[trigger] s@.subrange(k, k + m) != t@,
        decreases n - m + 1 - i,
    {
        if matches_at(s, n, t, m, i) {
            return true;
        }
        i = i + 1;
    }
    false
}

/// `s` starts with `t`.
pub open spec fn has_prefix(s: Seq<char>, t: Seq<char>) -> bool {
    t.len() <= s.len() && s.subrange(0, t.len() as int) == t
}

/// Whether `s` starts with `t`.
pub fn starts_with_text(s: &str, t: &str) -> (r: bool)
    ensures
        r == has_prefix(s@, t@),
{
    let n = s.unicode_len();
    let m = t.unicode_len();
    if m > n {
        return false;
    }
    matches_at(s, n, t, m, 0)
}

/// Whether `s` and `t` are the same text.
pub fn equal_text(s: &str, t: &str) -> (r: bool)
    ensures
        r == (s@ == t@),
{
    let n = s.unicode_len();
    let m = t.unicode_len();
    if m != n {
        return false;
    }
    let r = matches_at(s, n, t, m, 0);
    assert(s@.subrange(0, n as int) =~= s@);
    r
}

/// `s` holds a NUL character.
pub open spec fn has_nul(s: Seq<char>) -> bool {
    has_infix(s, "\0"@)
}

/// `s` names a path inside a repository as git2 takes it: not empty, no NUL,
/// and a first component that is neither the root, `.` nor `..`.
pub open spec fn is_repo_path(s: Seq<char>) -> bool {
    &&& s.len() > 0
    &&& s[0] != '/'
    &&& !(s == "."@ || has_prefix(s, "./"@))
    &&& !(s == ".."@ || has_prefix(s, "../"@))
    &&& !has_nul(s)
}

/// Whether `s` holds a NUL character.
pub fn contains_nul(s: &str) -> (r: bool)
    ensures
        r == has_nul(s@),
{
    contains_text(s, "\0")
}

/// Whether `s` names a path inside a repository as git2 takes it.
pub fn check_repo_path(s: &str) -> (r: bool)
    ensures
        r == is_repo_path(s@),
{
    if s.unicode_len() == 0 || s.get_char(0) == '/' {
        return false;
    }
    !(equal_text(s, ".") || starts_with_text(s, "./")) && !(equal_text(s, "..")
        || starts_with_text(s, "../")) && !contains_nul(s)
}

/// The text that valid UTF-8 bytes encode, or `None` for invalid bytes.
pub uninterp spec fn utf8_text(b: Seq<u8>) -> Option<Seq<char>>;

/// Relies on `std::str::from_utf8`: succeeds exactly on valid UTF-8 and then
/// yields the encoded text.
#[verifier::external_body]
pub(crate) fn decode_utf8(b: &Vec<u8>) -> (r: Option<String>)
    ensures
        r is Some == utf8_text(b@) is Some,
        r is Some ==> r->0@ == utf8_text(b@)->0,
{
    std::str::from_utf8(b.as_slice()).ok().map(|s| s.to_string())
}

/// Relies on `String::push`: appends one character.
#[verifier::external_body]
pub(crate) fn push_char(s: &mut String, c: char)
    ensures
        final(s)@ == old(s)@.push(c),
{
    s.push(c)
}

/// Position `i` starts a line of `s`.
pub open spec fn starts_line(s: Seq<char>, i: int) -> bool {
    i == 0 || s[i - 1] == '\n'
}

/// What position `i` of `s` contributes to the all-added patch: a `+` where
/// a line starts, then the character itself, except for a carriage return
/// that ends its line.
pub open spec fn added_piece(s: Seq<char>, i: int) -> Seq<char> {
    let head = if starts_line(s, i) { seq!['+'] } else { Seq::<char>::empty() };
    let body = if s[i] == '\r' && i + 1 < s.len() && s[i + 1] == '\n' {
        Seq::<char>::empty()
    } else {
        seq![s[i]]
    };
    head + body
}

/// The pieces of the first `k` positions of `s`.
pub open spec fn added_prefix(s: Seq<char>, k: int) -> Seq<char>
    decreases k,
{
    if k <= 0 {
        Seq::<char>::empty()
    } else {
        added_prefix(s, k - 1) + added_piece(s, k - 1)
    }
}

/// The patch that shows every line of `s` as added: each line (split at
/// `\n`, with a `\r` before the `\n` dropped) becomes `+`, the line, `\n`.
pub open spec fn added_patch(s: Seq<char>) -> Seq<char> {
    if s.len() == 0 {
        Seq::<char>::empty()
    } else if s.last() == '\n' {
        added_prefix(s, s.len() as int)
    } else {
        added_prefix(s, s.len() as int).push('\n')
    }
}

/// Renders `content` as a patch in which every line is added.
pub fn added_lines_patch(content: &str) -> (r: String)
    ensures
        r@ == added_patch(content@),
{
    broadcast use vstd::string::axiom_spec_iter;

    let ghost s = content@;
    let mut out = String::new();
    let mut pending_cr = false;
    let mut line_start = true;
    let mut last: Option<char> = None;
    for c in it: content.chars()
        invariant
            it.seq() == s,
            it.index() <= s.len(),
            line_start == (it.index() == 0 || s[it.index() - 1] == '\n'),
            last == (if it.index() == 0 {
                None
            } else {
                Some(s[it.index() - 1])
            }),
            pending_cr == (it.index() > 0 && s[it.index() - 1] == '\r'),
            pending_cr ==> out@ == added_prefix(s, it.index() - 1) + (if starts_line(
                s,
                it.index() - 1,
            ) {
                seq!['+']
            } else {
                Seq::<char>::empty()
            }),
            !pending_cr ==> out@ == added_prefix(s, it.index() as int),
    {
        let ghost i = it.index();
        assert(c == s[i]);
        if pending_cr {
            if c != '\n' {
                push_char(&mut out, '\r');
            }
            assert(out@ =~= added_prefix(s, i as int));
        }
        if line_start {
            push_char(&mut out, '+');
        }
        if c == '\r' {
            pending_cr = true;
        } else {
            pending_cr = false;
            push_char(&mut out, c);
            assert(out@ =~= added_prefix(s, i + 1));
        }
        line_start = c == '\n';
        last = Some(c);
    }
    if pending_cr {
        push_char(&mut out, '\r');
        assert(out@ =~= added_prefix(s, s.len() as int));
    }
    match last {
        Some(c) if c != '\n' => push_char(&mut out, '\n'),
        _ => {},
    }
    out
}

} // verus!
