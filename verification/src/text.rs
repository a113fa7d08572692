//! Searching in text.
//!
//! Everything here speaks of a text as the sequence of its characters, which is
//! the view that `str` and `String` have.

use vstd::prelude::*;

verus! {

/// `pattern` stands in `text` at position `at`.
pub open spec fn occurs_at(text: Seq<char>, pattern: Seq<char>, at: int) -> bool {
    &&& 0 <= at
    &&& at + pattern.len() <= text.len()
    &&& text.subrange(at, at + pattern.len()) == pattern
}

/// `pattern` stands somewhere in `text`.
pub open spec fn has_substring(text: Seq<char>, pattern: Seq<char>) -> bool {
    exists|at: int| occurs_at(text, pattern, at)
}

/// The position of the last `c` among the first `end` characters of `text`,
/// or `-1` where there is none.
pub open spec fn last_position(text: Seq<char>, c: char, end: int) -> int
    decreases end,
{
    if end <= 0 || end > text.len() {
        -1
    } else if text[end - 1] == c {
        end - 1
    } else {
        last_position(text, c, end - 1)
    }
}

/// What `last_position` finds is an occurrence of `c` before `end` that no
/// other occurrence before `end` follows; it finds none only where there is none.
pub proof fn lemma_last_position(text: Seq<char>, c: char, end: int)
    requires
        0 <= end <= text.len(),
    ensures
        -1 <= last_position(text, c, end) < end,
        last_position(text, c, end) >= 0 ==> text[last_position(text, c, end)] == c,
        forall|k: int| last_position(text, c, end) < k < end ==> text[k] != c,
    decreases end,
{
    if end > 0 && text[end - 1] != c {
        lemma_last_position(text, c, end - 1);
    }
}

/// The characters of `s`, in order, in a vector that is indexed in constant time.
pub fn chars_of(s: &str) -> (chars: Vec<char>)
    ensures
        chars@ == s@,
{
    let mut chars: Vec<char> = Vec::new();
    for c in it: s.chars()
        invariant
            chars@ == it.seq().take(it.index() as int),
    {
        chars.push(c);
    }
    chars
}

/// Whether `pattern` stands in `text` at position `at`.
fn occurs_in_at(text: &Vec<char>, pattern: &Vec<char>, at: usize) -> (found: bool)
    requires
        at + pattern.len() <= text.len(),
    ensures
        found == occurs_at(text@, pattern@, at as int),
{
    let m: usize = pattern.len();
    let mut j: usize = 0;
    while j < m
        invariant
            m == pattern.len(),
            at + m <= text.len(),
            j <= m,
            forall|k: int| 0 <= k < j ==> text@[at + k] == pattern@[k],
        decreases m - j,
    {
        if text[at + j] != pattern[j] {
            return false;
        }
        j += 1;
    }
    assert(text@.subrange(at as int, at + m) =~= pattern@);
    true
}

/// Whether `pattern` stands somewhere in `text`. The empty pattern stands in
/// every text.
pub fn contains_text(text: &str, pattern: &str) -> (found: bool)
    ensures
        found == has_substring(text@, pattern@),
{
    let t: Vec<char> = chars_of(text);
    let p: Vec<char> = chars_of(pattern);
    let n: usize = t.len();
    let m: usize = p.len();
    if m > n {
        return false;
    }
    let mut at: usize = 0;
    while at <= n - m
        invariant
            t@ == text@,
            p@ == pattern@,
            n == t.len(),
            m == p.len(),
            m <= n,
            at <= n - m + 1,
            forall|k: int| 0 <= k < at ==> !occurs_at(text@, pattern@, k),
        decreases n - m + 1 - at,
    {
        if occurs_in_at(&t, &p, at) {
            return true;
        }
        assert(m > 0) by {
            if m == 0 {
                assert(text@.subrange(at as int, at as int) =~= pattern@);
            }
        }
        at += 1;
    }
    false
}

/// Whether `text` begins with `prefix`.
pub fn starts_with_text(text: &str, prefix: &str) -> (found: bool)
    ensures
        found == prefix@.is_prefix_of(text@),
{
    let t: Vec<char> = chars_of(text);
    let p: Vec<char> = chars_of(prefix);
    if p.len() > t.len() {
        return false;
    }
    occurs_in_at(&t, &p, 0)
}

/// Whether two texts hold the same characters.
pub fn same_text(a: &str, b: &str) -> (same: bool)
    ensures
        same == (a@ == b@),
{
    let x: Vec<char> = chars_of(a);
    let y: Vec<char> = chars_of(b);
    if x.len() != y.len() {
        return false;
    }
    let same: bool = occurs_in_at(&x, &y, 0);
    assert(x@.subrange(0, y@.len() as int) =~= x@);
    same
}

} // verus!
