//! Updating `PATH` through the registry value that holds the user's `PATH` on
//! Windows. The caller reads and writes the value; this module decides whether
//! the directory is there already and what the new value is.

use vstd::prelude::*;
use vstd::string::{StrSliceExecFns, StringExecFns};

use crate::text::chars_of;

verus! {

/// Decides updates of the `;`-separated `PATH` value of the Windows registry.
pub struct WindowsPathUpdater;

/// A character that may end a directory path without changing which directory it names.
pub open spec fn is_separator(c: char) -> bool {
    c == '/' || c == '\\'
}

/// `s` without the `/` and `\` characters at its end.
pub open spec fn trimmed(s: Seq<char>) -> Seq<char>
    decreases s.len(),
{
    if s.len() > 0 && is_separator(s.last()) {
        trimmed(s.drop_last())
    } else {
        s
    }
}

/// The characters of `value` from `i` up to `j` form one of its `;`-separated segments.
pub open spec fn is_segment(value: Seq<char>, i: int, j: int) -> bool {
    &&& 0 <= i <= j <= value.len()
    &&& (i == 0 || value[i - 1] == ';')
    &&& (j == value.len() || value[j] == ';')
    &&& forall|k: int| i <= k < j ==> value[k] != ';'
}

/// Some segment of the `PATH` value `value` names `path`, once the `/` and `\`
/// at the end of both are left out.
pub open spec fn in_path_value(path: Seq<char>, value: Seq<char>) -> bool {
    exists|i: int, j: int| #[trigger]
        is_segment(value, i, j) && trimmed(value.subrange(i, j)) == trimmed(path)
}

/// The `PATH` value with `path` put in front of `current`.
pub open spec fn prepended_value(path: Seq<char>, current: Seq<char>) -> Seq<char> {
    if current.len() == 0 {
        path
    } else {
        path + ";"@ + current
    }
}

/// The `PATH` value with `path` put after `current`.
pub open spec fn appended_value(path: Seq<char>, current: Seq<char>) -> Seq<char> {
    if current.len() == 0 {
        path
    } else {
        current + ";"@ + path
    }
}

/// A `/` or `\` added at the end of a directory does not change whether a
/// `PATH` value holds it.
pub proof fn lemma_trailing_separator_ignored(path: Seq<char>, value: Seq<char>, c: char)
    requires
        is_separator(c),
    ensures
        in_path_value(path.push(c), value) == in_path_value(path, value),
{
    assert(path.push(c).drop_last() =~= path);
}

/// A directory counts as present where a segment of the `PATH` value is that
/// directory followed by a `/` or `\`.
pub proof fn lemma_segment_with_trailing_separator(
    path: Seq<char>,
    value: Seq<char>,
    i: int,
    j: int,
    c: char,
)
    requires
        is_separator(c),
        is_segment(value, i, j),
        value.subrange(i, j) == path.push(c),
    ensures
        in_path_value(path, value),
{
    assert(path.push(c).drop_last() =~= path);
    assert(trimmed(value.subrange(i, j)) == trimmed(path));
}

/// Into an empty `PATH` value a directory goes alone, with no `;` before or
/// after it, unless it is made of `/` and `\` only (its trimmed form is then
/// the one empty segment of the empty value).
pub proof fn lemma_into_empty_value(path: Seq<char>)
    requires
        trimmed(path).len() > 0,
    ensures
        !in_path_value(path, Seq::empty()),
        prepended_value(path, Seq::empty()) == path,
        appended_value(path, Seq::empty()) == path,
{
    let empty = Seq::<char>::empty();
    assert forall|i: int, j: int| #[trigger]
        is_segment(empty, i, j) implies trimmed(empty.subrange(i, j)) != trimmed(path) by {
        assert(empty.subrange(i, j) =~= empty);
    }
}

/// Where the characters of `s` from `start` up to `end` stop once the `/` and
/// `\` at their end are left out.
fn trimmed_end(s: &Vec<char>, start: usize, end: usize) -> (e: usize)
    requires
        start <= end <= s@.len(),
    ensures
        start <= e <= end,
        trimmed(s@.subrange(start as int, end as int)) == s@.subrange(start as int, e as int),
{
    let mut e: usize = end;
    while e > start && (s[e - 1] == '/' || s[e - 1] == '\\')
        invariant
            start <= e <= end <= s@.len(),
            trimmed(s@.subrange(start as int, end as int)) == trimmed(
                s@.subrange(start as int, e as int),
            ),
        decreases e,
    {
        assert(s@.subrange(start as int, e as int).drop_last() =~= s@.subrange(
            start as int,
            e - 1,
        ));
        e = e - 1;
    }
    e
}

/// Whether the characters of `a` from `i` up to `j` are those of `b` up to `m`.
fn same_chars(a: &Vec<char>, i: usize, j: usize, b: &Vec<char>, m: usize) -> (r: bool)
    requires
        i <= j <= a@.len(),
        m <= b@.len(),
    ensures
        r == (a@.subrange(i as int, j as int) == b@.subrange(0, m as int)),
{
    if j - i != m {
        assert(a@.subrange(i as int, j as int).len() != b@.subrange(0, m as int).len());
        return false;
    }
    let mut k: usize = 0;
    while k < m
        invariant
            i <= j <= a@.len(),
            m <= b@.len(),
            j - i == m,
            k <= m,
            forall|q: int| 0 <= q < k ==> a@[i + q] == b@[q],
        decreases m - k,
    {
        if a[i + k] != b[k] {
            assert(a@.subrange(i as int, j as int)[k as int] != b@.subrange(0, m as int)[k as int]);
            return false;
        }
        k = k + 1;
    }
    assert(a@.subrange(i as int, j as int) =~= b@.subrange(0, m as int));
    true
}

impl WindowsPathUpdater {
    /// Whether the `PATH` value `path_env` holds `path` already, ignoring the
    /// `/` and `\` characters at the end of it and of each segment.
    pub fn path_exists_in_path(path: &str, path_env: &str) -> (r: bool)
        ensures
            r == in_path_value(path@, path_env@),
    {
        let p = chars_of(path);
        let v = chars_of(path_env);
        let pe = trimmed_end(&p, 0, p.len());
        assert(p@.subrange(0, p@.len() as int) =~= p@);
        let n: usize = v.len();
        let mut start: usize = 0;
        let mut k: usize = 0;
        while k < n
            invariant
                v@ == path_env@,
                p@ == path@,
                pe <= p@.len(),
                trimmed(path@) == p@.subrange(0, pe as int),
                n == v@.len(),
                start <= k <= n,
                start == 0 || v@[start - 1] == ';',
                forall|m: int| start <= m < k ==> v@[m] != ';',
                forall|i: int, j: int|
                    #![trigger is_segment(v@, i, j)]
                    is_segment(v@, i, j) && j < k ==> trimmed(v@.subrange(i, j)) != trimmed(
                        path@,
                    ),
            decreases n - k,
        {
            if v[k] == ';' {
                let e = trimmed_end(&v, start, k);
                if same_chars(&v, start, e, &p, pe) {
                    assert(is_segment(v@, start as int, k as int));
                    return true;
                }
                assert forall|i: int, j: int| #[trigger]
                    is_segment(v@, i, j) && j < k + 1 implies trimmed(v@.subrange(i, j)) != trimmed(
                    path@,
                ) by {
                    if j == k {
                        if i < start {
                            assert(v@[start - 1] == ';');
                        } else if i > start {
                            assert(v@[i - 1] == ';');
                        }
                    }
                }
                start = k + 1;
            }
            k = k + 1;
        }
        let e = trimmed_end(&v, start, n);
        if same_chars(&v, start, e, &p, pe) {
            assert(is_segment(v@, start as int, n as int));
            return true;
        }
        assert forall|i: int, j: int| #[trigger]
            is_segment(v@, i, j) implies trimmed(v@.subrange(i, j)) != trimmed(path@) by {
            if j == n {
                if i < start {
                    assert(v@[start - 1] == ';');
                } else if i > start {
                    assert(v@[i - 1] == ';');
                }
            }
        }
        false
    }

    /// The new `PATH` value with `path` in front of `current_path`, or `None`
    /// where `current_path` holds `path` already.
    pub fn prepend(path: &str, current_path: &str) -> (r: Option<String>)
        ensures
            in_path_value(path@, current_path@) ==> r is None,
            !in_path_value(path@, current_path@) ==> r is Some && r->0@ == prepended_value(
                path@,
                current_path@,
            ),
    {
        if WindowsPathUpdater::path_exists_in_path(path, current_path) {
            return None;
        }
        if current_path.is_empty() {
            Some(String::from_str(path))
        } else {
            Some(String::from_str(path).concat(";").concat(current_path))
        }
    }

    /// The new `PATH` value with `path` after `current_path`, or `None` where
    /// `current_path` holds `path` already.
    pub fn append(path: &str, current_path: &str) -> (r: Option<String>)
        ensures
            in_path_value(path@, current_path@) ==> r is None,
            !in_path_value(path@, current_path@) ==> r is Some && r->0@ == appended_value(
                path@,
                current_path@,
            ),
    {
        if WindowsPathUpdater::path_exists_in_path(path, current_path) {
            return None;
        }
        if current_path.is_empty() {
            Some(String::from_str(path))
        } else {
            Some(String::from_str(current_path).concat(";").concat(path))
        }
    }
}

} // verus!
