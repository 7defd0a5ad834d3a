//! Character and string primitives that the daemon's rules are written in.
//!
//! Each trusted item here is one std function; the rest is verified.

use vstd::prelude::*;
use vstd::string::*;

verus! {

/// What `char::is_alphanumeric` answers for a character (Unicode
/// Alphabetic or Numeric property).
pub uninterp spec fn unicode_alphanumeric(c: char) -> bool;

/// What `char::is_whitespace` answers for a character (Unicode
/// White_Space property).
pub uninterp spec fn unicode_whitespace(c: char) -> bool;

/// An ASCII letter or digit.
pub open spec fn is_ascii_alnum(c: char) -> bool {
    ('a' <= c && c <= 'z') || ('A' <= c && c <= 'Z') || ('0' <= c && c <= '9')
}

/// The ASCII characters std counts as whitespace: space, tab, line feed,
/// vertical tab, form feed and carriage return.
pub open spec fn is_ascii_ws(c: char) -> bool {
    c == ' ' || c == '\t' || c == '\n' || c == '\u{0B}' || c == '\u{0C}' || c == '\r'
}

/// `char::is_alphanumeric`. Its result is named; for an ASCII character
/// std's documentation gives it as the ASCII letter-or-digit test, and that
/// is stated. Nothing is stated of other characters.
#[verifier::external_body]
pub(crate) fn char_is_alphanumeric(c: char) -> (r: bool)
    ensures
        r == unicode_alphanumeric(c),
        (c as u32) < 128 ==> (r == is_ascii_alnum(c)),
{
    c.is_alphanumeric()
}

/// `char::is_whitespace`. Its result is named; for an ASCII character it is
/// the ASCII whitespace test, as std's documentation gives it. Nothing is
/// stated of other characters.
#[verifier::external_body]
pub(crate) fn char_is_whitespace(c: char) -> (r: bool)
    ensures
        r == unicode_whitespace(c),
        (c as u32) < 128 ==> (r == is_ascii_ws(c)),
{
    c.is_whitespace()
}

/// `String::push`: appends one character.
#[verifier::external_body]
pub(crate) fn push_char(s: &mut String, c: char)
    ensures
        final(s)@ == old(s)@.push(c),
{
    s.push(c);
}

/// `str == str`: equal exactly when the character sequences are.
#[verifier::external_body]
pub(crate) fn str_eq(a: &str, b: &str) -> (r: bool)
    ensures
        r == (a@ == b@),
{
    a == b
}

/// A copy of a string slice as an owned `String`.
pub fn to_owned_string(s: &str) -> (r: String)
    ensures
        r@ == s@,
{
    String::from_str(s)
}

/// The characters of `s` from `start` on, as a new string.
pub fn suffix_from(s: &str, start: usize) -> (r: String)
    requires
        start <= s@.len(),
    ensures
        r@ == s@.subrange(start as int, s@.len() as int),
{
    let n = s.unicode_len();
    let mut out = String::new();
    let mut i = start;
    while i < n
        invariant
            n == s@.len(),
            start <= i <= n,
            out@ == s@.subrange(start as int, i as int),
        decreases n - i,
    {
        let c = s.get_char(i);
        push_char(&mut out, c);
        assert(s@.subrange(start as int, i + 1) == s@.subrange(start as int, i as int).push(c));
        i = i + 1;
    }
    out
}

/// The characters of `s` before `end`, as a new string.
pub fn prefix_to(s: &str, end: usize) -> (r: String)
    requires
        end <= s@.len(),
    ensures
        r@ == s@.subrange(0, end as int),
{
    let mut out = String::new();
    let mut i: usize = 0;
    while i < end
        invariant
            end <= s@.len(),
            i <= end,
            out@ == s@.subrange(0, i as int),
        decreases end - i,
    {
        let c = s.get_char(i);
        push_char(&mut out, c);
        assert(s@.subrange(0, i + 1) == s@.subrange(0, i as int).push(c));
        i = i + 1;
    }
    out
}

/// Whether `s` ends with `suffix`.
pub open spec fn ends_with(s: Seq<char>, suffix: Seq<char>) -> bool {
    suffix.len() <= s.len() && s.subrange(s.len() - suffix.len(), s.len() as int) == suffix
}

/// `s` with its leading whitespace removed.
pub open spec fn trim_start_ws(s: Seq<char>) -> Seq<char>
    decreases s.len(),
{
    if s.len() > 0 && unicode_whitespace(s[0]) {
        trim_start_ws(s.drop_first())
    } else {
        s
    }
}

/// `s` with its trailing whitespace removed.
pub open spec fn trim_end_ws(s: Seq<char>) -> Seq<char>
    decreases s.len(),
{
    if s.len() > 0 && unicode_whitespace(s.last()) {
        trim_end_ws(s.drop_last())
    } else {
        s
    }
}

/// `str::trim`: leading and trailing whitespace removed.
pub open spec fn trimmed(s: Seq<char>) -> Seq<char> {
    trim_end_ws(trim_start_ws(s))
}

/// The text of `s` without leading and trailing whitespace, as `str::trim`
/// gives it.
pub fn trim_string(s: &str) -> (r: String)
    ensures
        r@ == trimmed(s@),
{
    let n = s.unicode_len();
    let mut lo: usize = 0;
    assert(s@.subrange(0, n as int) == s@);
    while lo < n && char_is_whitespace(s.get_char(lo))
        invariant
            n == s@.len(),
            lo <= n,
            trim_start_ws(s@) == trim_start_ws(s@.subrange(lo as int, n as int)),
        decreases n - lo,
    {
        let ghost t = s@.subrange(lo as int, n as int);
        assert(t[0] == s@[lo as int]);
        assert(t.drop_first() == s@.subrange(lo + 1, n as int));
        lo = lo + 1;
    }
    proof {
        let t = s@.subrange(lo as int, n as int);
        if t.len() > 0 {
            assert(t[0] == s@[lo as int]);
        }
        assert(trim_start_ws(s@) == t);
    }
    let mut hi: usize = n;
    while hi > lo && char_is_whitespace(s.get_char(hi - 1))
        invariant
            n == s@.len(),
            lo <= hi <= n,
            trimmed(s@) == trim_end_ws(s@.subrange(lo as int, hi as int)),
        decreases hi - lo,
    {
        let ghost t = s@.subrange(lo as int, hi as int);
        assert(t.last() == s@[hi - 1]);
        assert(t.drop_last() == s@.subrange(lo as int, hi - 1));
        hi = hi - 1;
    }
    proof {
        let t = s@.subrange(lo as int, hi as int);
        if t.len() > 0 {
            assert(t.last() == s@[hi - 1]);
        }
        assert(trimmed(s@) == t);
    }
    let mut out = String::new();
    let mut i = lo;
    while i < hi
        invariant
            n == s@.len(),
            lo <= i <= hi <= n,
            out@ == s@.subrange(lo as int, i as int),
        decreases hi - i,
    {
        let c = s.get_char(i);
        push_char(&mut out, c);
        assert(s@.subrange(lo as int, i + 1) == s@.subrange(lo as int, i as int).push(c));
        i = i + 1;
    }
    out
}


/// `s` without `suffix` at its end, when it ends with it.
pub fn strip_suffix(s: &str, suffix: &str) -> (r: Option<String>)
    ensures
        match r {
            Some(x) => ends_with(s@, suffix@) && x@ == s@.subrange(0, s@.len() - suffix@.len()),
            None => !ends_with(s@, suffix@),
        },
{
    let n = s.unicode_len();
    let m = suffix.unicode_len();
    if m > n {
        return None;
    }
    let start = n - m;
    let mut i: usize = 0;
    while i < m
        invariant
            n == s@.len(),
            m == suffix@.len(),
            start == n - m,
            i <= m,
            forall|j: int| 0 <= j < i ==> s@[start + j] == suffix@[j],
        decreases m - i,
    {
        if s.get_char(start + i) != suffix.get_char(i) {
            assert(s@.subrange(start as int, n as int)[i as int] != suffix@[i as int]);
            return None;
        }
        i = i + 1;
    }
    assert(s@.subrange(start as int, n as int) =~= suffix@);
    Some(prefix_to(s, start))
}

} // verus!
