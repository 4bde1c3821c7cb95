//! A small model of Windows-style path strings.
//!
//! Paths are plain character strings.  Both `\` and `/` count as component
//! separators.  The model covers exactly what shortcut resolution needs:
//! joining a base directory with a relative path, taking the parent
//! directory, and splitting the final component into stem and extension.
//! A path with a trailing separator is treated as ending in an empty
//! component.

use vstd::prelude::*;
use vstd::string::{StrSliceExecFns, StringExecFns};

verus! {

/// The characters accepted as component separators.
pub open spec fn is_sep(c: char) -> bool {
    c == '\\' || c == '/'
}

/// Index of the last separator in `s`, if any.
pub open spec fn last_sep(s: Seq<char>) -> Option<int>
    decreases s.len(),
{
    if s.len() == 0 {
        None
    } else if is_sep(s.last()) {
        Some(s.len() - 1)
    } else {
        last_sep(s.drop_last())
    }
}

/// Index of the last `.` in `s`, if any.
pub open spec fn last_dot(s: Seq<char>) -> Option<int>
    decreases s.len(),
{
    if s.len() == 0 {
        None
    } else if s.last() == '.' {
        Some(s.len() - 1)
    } else {
        last_dot(s.drop_last())
    }
}

/// A last separator lies inside the string and is a separator.
pub proof fn lemma_last_sep_bounds(s: Seq<char>)
    ensures
        match last_sep(s) {
            Some(i) => 0 <= i < s.len() && is_sep(s[i]),
            None => true,
        },
    decreases s.len(),
{
    if s.len() > 0 && !is_sep(s.last()) {
        lemma_last_sep_bounds(s.drop_last());
    }
}

/// A last dot lies inside the string and is a dot.
pub proof fn lemma_last_dot_bounds(s: Seq<char>)
    ensures
        match last_dot(s) {
            Some(i) => 0 <= i < s.len() && s[i] == '.',
            None => true,
        },
    decreases s.len(),
{
    if s.len() > 0 && s.last() != '.' {
        lemma_last_dot_bounds(s.drop_last());
    }
}

/// The final component of the path: everything after the last separator.
pub open spec fn file_name_spec(s: Seq<char>) -> Seq<char> {
    match last_sep(s) {
        Some(i) => s.subrange(i + 1, s.len() as int),
        None => s,
    }
}

/// The extension of the final component: everything after its last `.`.
/// A component without a dot, or whose only dot leads it, has none.
pub open spec fn extension_spec(s: Seq<char>) -> Option<Seq<char>> {
    let name = file_name_spec(s);
    match last_dot(name) {
        Some(i) => if i == 0 {
            None
        } else {
            Some(name.subrange(i + 1, name.len() as int))
        },
        None => None,
    }
}

/// The final component with its extension stripped.
pub open spec fn file_stem_spec(s: Seq<char>) -> Seq<char> {
    let name = file_name_spec(s);
    match last_dot(name) {
        Some(i) => if i == 0 {
            name
        } else {
            name.subrange(0, i)
        },
        None => name,
    }
}

/// A path that stands on its own: rooted by a separator or a drive letter.
pub open spec fn is_absolute_spec(s: Seq<char>) -> bool {
    (s.len() >= 1 && is_sep(s[0])) || (s.len() >= 2 && s[1] == ':')
}

/// Joining a base directory with a further path.  An absolute path
/// replaces the base; an empty base disappears; otherwise a single
/// backslash separates the two.
pub open spec fn join_spec(base: Seq<char>, rel: Seq<char>) -> Seq<char> {
    if is_absolute_spec(rel) {
        rel
    } else if base.len() == 0 {
        rel
    } else if is_sep(base.last()) {
        base + rel
    } else {
        base + seq!['\\'] + rel
    }
}

/// A bare root: a lone separator, or a drive letter with or without one.
pub open spec fn is_root_spec(s: Seq<char>) -> bool {
    (s.len() == 1 && is_sep(s[0]))
    || (s.len() == 2 && s[1] == ':')
    || (s.len() == 3 && s[1] == ':' && is_sep(s[2]))
}

/// The parent directory: the path with its final component removed.
/// An empty path and a bare root have none.  A root keeps its trailing
/// separator, so the parent of `C:\Users` is `C:\`.
pub open spec fn parent_spec(s: Seq<char>) -> Option<Seq<char>> {
    if s.len() == 0 || is_root_spec(s) {
        None
    } else {
        match last_sep(s) {
            None => Some(Seq::empty()),
            Some(i) => {
                let head = s.subrange(0, i);
                if last_sep(head) is None && head.len() >= 2 && head[1] == ':' {
                    Some(s.subrange(0, i + 1))
                } else if i == 0 {
                    Some(s.subrange(0, 1))
                } else {
                    Some(head)
                }
            },
        }
    }
}

/// The parent of `s`, or the default drive root when it has none; the
/// base of the resolution retry.
pub open spec fn parent_or_default_spec(s: Seq<char>) -> Seq<char> {
    match parent_spec(s) {
        Some(p) => p,
        None => "C:\\"@,
    }
}

/// Whether `c` is a component separator.
pub fn is_sep_char(c: char) -> (r: bool)
    ensures
        r == is_sep(c),
{
    c == '\\' || c == '/'
}

/// Index of the last separator in `s`, scanning from the end.
pub fn last_sep_index(s: &str) -> (r: Option<usize>)
    ensures
        match r {
            Some(i) => last_sep(s@) == Some(i as int),
            None => last_sep(s@) is None,
        },
{
    let n: usize = s.unicode_len();
    let mut i: usize = n;
    assert(s@.take(n as int) =~= s@);
    while i > 0
        invariant
            i <= n,
            n == s@.len(),
            last_sep(s@) == last_sep(s@.take(i as int)),
        decreases i,
    {
        let c = s.get_char(i - 1);
        if is_sep_char(c) {
            assert(s@.take(i as int).last() == c);
            return Some(i - 1);
        }
        proof {
            assert(s@.take(i as int).drop_last() =~= s@.take(i as int - 1));
        }
        i = i - 1;
    }
    assert(s@.take(0) =~= Seq::<char>::empty());
    None
}

/// Index of the last dot in `s`, scanning from the end.
pub fn last_dot_index(s: &str) -> (r: Option<usize>)
    ensures
        match r {
            Some(i) => last_dot(s@) == Some(i as int),
            None => last_dot(s@) is None,
        },
{
    let n: usize = s.unicode_len();
    let mut i: usize = n;
    assert(s@.take(n as int) =~= s@);
    while i > 0
        invariant
            i <= n,
            n == s@.len(),
            last_dot(s@) == last_dot(s@.take(i as int)),
        decreases i,
    {
        let c = s.get_char(i - 1);
        if c == '.' {
            assert(s@.take(i as int).last() == c);
            return Some(i - 1);
        }
        proof {
            assert(s@.take(i as int).drop_last() =~= s@.take(i as int - 1));
        }
        i = i - 1;
    }
    assert(s@.take(0) =~= Seq::<char>::empty());
    None
}

/// The final component of `s` as a fresh string.
pub fn file_name_of(s: &str) -> (r: String)
    ensures
        r@ == file_name_spec(s@),
{
    let n: usize = s.unicode_len();
    proof {
        lemma_last_sep_bounds(s@);
    }
    match last_sep_index(s) {
        Some(i) => {
            let part = s.substring_char(i + 1, n);
            String::from_str(part)
        },
        None => String::from_str(s),
    }
}

/// The extension of the final component of `s`, if it has one.
pub fn extension_of(s: &str) -> (r: Option<String>)
    ensures
        match r {
            Some(e) => extension_spec(s@) == Some(e@),
            None => extension_spec(s@) is None,
        },
{
    let name = file_name_of(s);
    let n: usize = name.as_str().unicode_len();
    proof {
        lemma_last_dot_bounds(name@);
    }
    match last_dot_index(name.as_str()) {
        Some(i) => {
            if i == 0 {
                None
            } else {
                let part = name.as_str().substring_char(i + 1, n);
                Some(String::from_str(part))
            }
        },
        None => None,
    }
}

/// The final component of `s` with its extension stripped.
pub fn file_stem_of(s: &str) -> (r: String)
    ensures
        r@ == file_stem_spec(s@),
{
    let name = file_name_of(s);
    proof {
        lemma_last_dot_bounds(name@);
    }
    match last_dot_index(name.as_str()) {
        Some(i) => {
            if i == 0 {
                name
            } else {
                let part = name.as_str().substring_char(0, i);
                String::from_str(part)
            }
        },
        None => name,
    }
}

/// Whether `s` is rooted by a separator or a drive letter.
pub fn is_absolute_path(s: &str) -> (r: bool)
    ensures
        r == is_absolute_spec(s@),
{
    let n: usize = s.unicode_len();
    if n >= 1 && is_sep_char(s.get_char(0)) {
        true
    } else if n >= 2 && s.get_char(1) == ':' {
        true
    } else {
        false
    }
}

/// Join a base directory with a further path, as `join_spec` says.
pub fn join_path(base: &str, rel: &str) -> (r: String)
    ensures
        r@ == join_spec(base@, rel@),
{
    let n: usize = base.unicode_len();
    if is_absolute_path(rel) {
        String::from_str(rel)
    } else if n == 0 {
        String::from_str(rel)
    } else if is_sep_char(base.get_char(n - 1)) {
        assert(base@.last() == base@[n - 1]);
        String::from_str(base).concat(rel)
    } else {
        proof {
            reveal_strlit("\\");
            assert(("\\")@ =~= seq!['\\']);
        }
        let r = String::from_str(base).concat("\\").concat(rel);
        assert(r@ =~= base@ + seq!['\\'] + rel@);
        r
    }
}

/// The parent directory of `s`, or the default drive root when it has none.
/// Mirrors the resolution fallback: a working directory whose join failed
/// is retried one level up, and a directory without a parent falls back to
/// the root of the system drive.
pub fn parent_or_default(s: &str) -> (r: String)
    ensures
        r@ == parent_or_default_spec(s@),
{
    let n: usize = s.unicode_len();
    let root = is_root_path(s);
    proof {
        lemma_last_sep_bounds(s@);
    }
    if n == 0 || root {
        String::from_str("C:\\")
    } else {
        match last_sep_index(s) {
            None => String::new(),
            Some(i) => {
                let head = s.substring_char(0, i);
                let head_root = last_sep_index(head).is_none() && head.unicode_len() >= 2
                    && head.get_char(1) == ':';
                if head_root {
                    String::from_str(s.substring_char(0, i + 1))
                } else if i == 0 {
                    String::from_str(s.substring_char(0, 1))
                } else {
                    String::from_str(head)
                }
            },
        }
    }
}

/// Whether `s` is a bare root.
pub fn is_root_path(s: &str) -> (r: bool)
    ensures
        r == is_root_spec(s@),
{
    let n: usize = s.unicode_len();
    if n == 1 && is_sep_char(s.get_char(0)) {
        true
    } else if n == 2 && s.get_char(1) == ':' {
        true
    } else if n == 3 && s.get_char(1) == ':' && is_sep_char(s.get_char(2)) {
        true
    } else {
        false
    }
}

} // verus!
