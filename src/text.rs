//! Character-level helpers on strings, with their meaning stated over `Seq<char>`.

use vstd::prelude::*;

verus! {

/// `sub` occurs in `s` as a run of consecutive characters.
pub open spec fn is_infix(sub: Seq<char>, s: Seq<char>) -> bool {
    exists|i: int| 0 <= i <= s.len() - sub.len() && #[trigger] s.subrange(i, i + sub.len()) == sub
}

/// The characters of `s`, one by one.
pub fn chars_of(s: &str) -> (r: Vec<char>)
    ensures
        r@ == s@,
{
    broadcast use vstd::string::group_string_axioms;

    let mut r: Vec<char> = Vec::new();
    for c in it: s.chars()
        invariant
            it.seq() == s@,
            r@ == it.seq().subrange(0, it.index() as int),
    {
        r.push(c);
    }
    r
}

/// Whether `sub` occurs in `s` at position `start`.
fn occurs_at(s: &Vec<char>, sub: &Vec<char>, start: usize) -> (r: bool)
    requires
        start + sub@.len() <= s@.len(),
    ensures
        r == (s@.subrange(start as int, start + sub@.len()) == sub@),
{
    let n: usize = s.len();
    let mut k: usize = 0;
    while k < sub.len()
        invariant
            k <= sub@.len(),
            n == s@.len(),
            start + sub@.len() <= s@.len(),
            forall|m: int| 0 <= m < k ==> s@[start + m] == sub@[m],
        decreases sub@.len() - k,
    {
        if s[start + k] != sub[k] {
            assert(s@.subrange(start as int, start + sub@.len())[k as int] != sub@[k as int]);
            return false;
        }
        k = k + 1;
    }
    assert(s@.subrange(start as int, start + sub@.len()) =~= sub@);
    true
}

/// Whether `sub` occurs in `s`.
pub fn contains(s: &str, sub: &str) -> (r: bool)
    ensures
        r == is_infix(sub@, s@),
{
    let text = chars_of(s);
    let pattern = chars_of(sub);
    if pattern.len() == 0 {
        assert(s@.subrange(0, 0 + sub@.len() as int) =~= sub@);
        return true;
    }
    if pattern.len() > text.len() {
        return false;
    }
    let n: usize = text.len();
    let last: usize = n - pattern.len();
    let mut i: usize = 0;
    while i <= last
        invariant
            text@ == s@,
            pattern@ == sub@,
            0 < sub@.len() <= s@.len(),
            n == s@.len(),
            last == s@.len() - sub@.len(),
            i <= last + 1,
            forall|j: int| 0 <= j < i ==> #[trigger] s@.subrange(j, j + sub@.len()) != sub@,
        decreases last + 1 - i,
    {
        if occurs_at(&text, &pattern, i) {
            return true;
        }
        i = i + 1;
    }
    false
}

} // verus!
