//! Paths as the daemon's host (a Unix system) writes them, and the mapping
//! of Windows drive paths into WSL.

use vstd::prelude::*;
use crate::text::{push_char, to_owned_string};

verus! {

/// The path of `name` inside the directory `dir`, as `Path::join` builds it
/// on Unix: an absolute `name` replaces `dir`; otherwise a `/` goes between
/// them unless `dir` is empty or already ends with one.
pub open spec fn joined(dir: Seq<char>, name: Seq<char>) -> Seq<char> {
    if name.len() > 0 && name[0] == '/' {
        name
    } else if dir.len() == 0 || dir.last() == '/' {
        dir + name
    } else {
        dir + "/"@ + name
    }
}

/// Join a relative file name onto a directory.
pub fn join_path(dir: &str, name: &str) -> (r: String)
    ensures
        r@ == joined(dir@, name@),
{
    if name.unicode_len() > 0 && name.get_char(0) == '/' {
        return to_owned_string(name);
    }
    let n = dir.unicode_len();
    let mut out = to_owned_string(dir);
    if n > 0 && dir.get_char(n - 1) != '/' {
        push_char(&mut out, '/');
        proof {
            reveal_strlit("/");
            assert(dir@.push('/') =~= dir@ + "/"@);
        }
    }
    out.append(name);
    out
}

/// What `std::path::Path::parent` answers for a path on the target
/// platform (whose separators it follows): the path without its final
/// component, as text, or none when the path ends in a root or is empty.
pub uninterp spec fn std_path_parent(p: Seq<char>) -> Option<Seq<char>>;

/// `Path::new(p).parent()`, as text. Its result is named: std normalizes
/// separators and `.` components in ways this does not restate. Std's
/// documentation gives none for the empty path, and that is stated.
#[verifier::external_body]
pub(crate) fn path_parent(p: &str) -> (r: Option<String>)
    ensures
        match r {
            Some(s) => std_path_parent(p@) == Some(s@),
            None => std_path_parent(p@) is None,
        },
        p@.len() == 0 ==> r is None,
{
    std::path::Path::new(p).parent().map(|q| q.to_string_lossy().to_string())
}

/// An ASCII letter.
pub open spec fn is_ascii_alpha(c: char) -> bool {
    ('a' <= c && c <= 'z') || ('A' <= c && c <= 'Z')
}

/// An ASCII letter in lower case.
pub open spec fn ascii_lower(c: char) -> char {
    if 'A' <= c && c <= 'Z' {
        ((c as u32) + 32) as char
    } else {
        c
    }
}

/// `s` with every backslash turned into a slash.
pub open spec fn forward_slashes(s: Seq<char>) -> Seq<char> {
    s.map_values(|c: char| if c == '\\' { '/' } else { c })
}

/// A Windows drive path: a letter, a colon, then nothing or a separator.
pub open spec fn is_drive_path(s: Seq<char>) -> bool {
    s.len() >= 2 && is_ascii_alpha(s[0]) && s[1] == ':' && (s.len() == 2 || s[2] == '\\' || s[2] == '/')
}

/// The WSL path of a Windows drive path: `/mnt/` and the drive letter in
/// lower case, then the rest with backslashes turned into slashes; none for
/// a path that is not a drive path.
pub open spec fn linux_path_of(s: Seq<char>) -> Option<Seq<char>> {
    if is_drive_path(s) {
        Some("/mnt/"@ + seq![ascii_lower(s[0])] + forward_slashes(s.subrange(2, s.len() as int)))
    } else {
        None
    }
}

/// Map a Windows drive path to the path WSL mounts it at.
pub fn to_linux(path: &str) -> (r: Option<String>)
    ensures
        match r {
            Some(s) => linux_path_of(path@) == Some(s@),
            None => linux_path_of(path@) is None,
        },
{
    let n = path.unicode_len();
    if n < 2 {
        return None;
    }
    let d = path.get_char(0);
    let ok_letter = ('a' <= d && d <= 'z') || ('A' <= d && d <= 'Z');
    if !ok_letter || path.get_char(1) != ':' {
        return None;
    }
    if n > 2 {
        let sep = path.get_char(2);
        if sep != '\\' && sep != '/' {
            return None;
        }
    }
    let lower: char = if 'A' <= d && d <= 'Z' {
        let code: u32 = (d as u32) + 32;
        proof {
            assert(0x61 <= code && code <= 0x7a);
        }
        char_from_ascii(code)
    } else {
        d
    };
    let mut out = String::from_str("/mnt/");
    push_char(&mut out, lower);
    let ghost head = out@;
    let mut i: usize = 2;
    while i < n
        invariant
            n == path@.len(),
            2 <= i <= n,
            out@ == head + forward_slashes(path@.subrange(2, i as int)),
        decreases n - i,
    {
        let c = path.get_char(i);
        let mapped = if c == '\\' { '/' } else { c };
        push_char(&mut out, mapped);
        assert(forward_slashes(path@.subrange(2, i + 1)) =~= forward_slashes(path@.subrange(2, i as int)).push(mapped));
        i = i + 1;
    }
    proof {
        reveal_strlit("/mnt/");
        assert(head =~= "/mnt/"@ + seq![ascii_lower(d)]);
    }
    Some(out)
}

/// The character of an ASCII code.
fn char_from_ascii(code: u32) -> (r: char)
    requires
        code < 128,
    ensures
        r as u32 == code,
{
    let b: u8 = code as u8;
    b as char
}

} // verus!
