//! Paths as texts.
//!
//! A path is held as the text that names it, with `/` between its components.
//! Nothing here asks the file system: a path is taken apart and put together
//! by its characters alone.

use vstd::prelude::*;
use crate::text::{chars_of, last_position, lemma_last_position};

verus! {

/// `base` with the component `part` below it: the two texts with one `/`
/// between them, which is left out where `base` is empty or ends in `/` already.
pub open spec fn joined(base: Seq<char>, part: Seq<char>) -> Seq<char> {
    if base.len() == 0 || base.last() == '/' {
        base + part
    } else {
        base + seq!['/'] + part
    }
}

/// A component that names an entry of its directory: it is not empty, holds no
/// separator of any platform, and is neither `.` nor `..`.
pub open spec fn plain_name(component: Seq<char>) -> bool {
    &&& component.len() > 0
    &&& forall|k: int| 0 <= k < component.len() ==> component[k] != '/' && component[k] != '\\'
    &&& component != seq!['.']
    &&& component != seq!['.', '.']
}

/// The directory two levels above `out_dir`.
///
/// Where `out_dir` starts at the root and its last two components are plain
/// names, they are cut off, and what is left of the text names the directory.
/// Any other text is extended by `../..`, which leaves the two steps to the
/// file system.
pub open spec fn two_levels_up(out_dir: Seq<char>) -> Seq<char> {
    let last = last_position(out_dir, '/', out_dir.len() as int);
    let cut = last_position(out_dir, '/', last);
    if cut >= 0 && out_dir[0] == '/' && plain_name(out_dir.subrange(cut + 1, last)) && plain_name(
        out_dir.skip(last + 1),
    ) {
        if cut == 0 {
            out_dir.take(1)
        } else {
            out_dir.take(cut)
        }
    } else {
        joined(out_dir, "../.."@)
    }
}

/// In a text that ends in the plain name `name` after a `/`, that `/` is the
/// last one.
proof fn lemma_last_separator(head: Seq<char>, name: Seq<char>)
    requires
        plain_name(name),
    ensures
        last_position(head + seq!['/'] + name, '/', (head.len() + 1 + name.len()) as int)
            == head.len(),
{
    let path = head + seq!['/'] + name;
    lemma_last_position(path, '/', path.len() as int);
    assert(path[head.len() as int] == '/');
    assert forall|k: int| head.len() < k < path.len() implies path[k] != '/' by {
        assert(path[k] == name[k - head.len() - 1]);
    }
}

/// Two levels down and two levels up again is where one started: for a `root`
/// that starts at `/` and does not end in one (unless it is `/` itself), and
/// plain names `a` and `b`, the directory two levels above `root/a/b` is `root`.
pub proof fn lemma_root_of_nested(root: Seq<char>, a: Seq<char>, b: Seq<char>)
    requires
        root.len() > 0,
        root[0] == '/',
        root.len() == 1 || root.last() != '/',
        plain_name(a),
        plain_name(b),
    ensures
        two_levels_up(joined(joined(root, a), b)) == root,
{
    let head = if root.len() == 1 {
        Seq::<char>::empty()
    } else {
        root
    };
    let middle = head + seq!['/'] + a;
    let path = middle + seq!['/'] + b;
    assert(joined(root, a) =~= middle);
    lemma_last_separator(middle, b);
    let last = middle.len() as int;
    lemma_last_separator(head, a);
    let cut = head.len() as int;
    assert(last_position(path, '/', last) == cut) by {
        lemma_same_before(path, middle, '/', last);
    }
    assert(path.subrange(cut + 1, last) =~= a);
    assert(path.skip(last + 1) =~= b);
}

/// Texts that agree on their first `end` characters have the same last `c`
/// among these.
proof fn lemma_same_before(s: Seq<char>, t: Seq<char>, c: char, end: int)
    requires
        0 <= end <= s.len(),
        end <= t.len(),
        forall|k: int| 0 <= k < end ==> s[k] == t[k],
    ensures
        last_position(s, c, end) == last_position(t, c, end),
    decreases end,
{
    if end > 0 && s[end - 1] != c {
        lemma_same_before(s, t, c, end - 1);
    }
}

/// The position of the last `c` among the first `end` of `chars`.
fn find_last(chars: &Vec<char>, c: char, end: usize) -> (found: Option<usize>)
    requires
        end <= chars.len(),
    ensures
        match found {
            Some(at) => at < end && at as int == last_position(chars@, c, end as int),
            None => last_position(chars@, c, end as int) == -1,
        },
{
    let mut at: usize = end;
    while at > 0
        invariant
            at <= end <= chars.len(),
            last_position(chars@, c, end as int) == last_position(chars@, c, at as int),
        decreases at,
    {
        if chars[at - 1] == c {
            return Some(at - 1);
        }
        at -= 1;
    }
    None
}

/// Whether the characters of `chars` from `from` up to `to` are a plain name.
fn is_plain_name(chars: &Vec<char>, from: usize, to: usize) -> (plain: bool)
    requires
        from <= to <= chars.len(),
    ensures
        plain == plain_name(chars@.subrange(from as int, to as int)),
{
    let ghost name = chars@.subrange(from as int, to as int);
    if from == to {
        return false;
    }
    if to - from == 1 && chars[from] == '.' {
        assert(name =~= seq!['.']);
        return false;
    }
    if to - from == 2 && chars[from] == '.' && chars[from + 1] == '.' {
        assert(name =~= seq!['.', '.']);
        return false;
    }
    assert(name != seq!['.']) by {
        if name == seq!['.'] {
            assert(name.len() == 1 && name[0] == '.');
        }
    }
    assert(name != seq!['.', '.']) by {
        if name == seq!['.', '.'] {
            assert(name.len() == 2 && name[0] == '.' && name[1] == '.');
        }
    }
    let mut k: usize = from;
    while k < to
        invariant
            from <= k <= to <= chars.len(),
            name == chars@.subrange(from as int, to as int),
            forall|q: int| 0 <= q < k - from ==> name[q] != '/' && name[q] != '\\',
        decreases to - k,
    {
        if chars[k] == '/' || chars[k] == '\\' {
            assert(name[k - from] == chars@[k as int]);
            return false;
        }
        k += 1;
    }
    true
}

/// The path of `part` below `base`.
pub fn join(base: &str, part: &str) -> (path: String)
    ensures
        path@ == joined(base@, part@),
{
    let chars: Vec<char> = chars_of(base);
    let n: usize = chars.len();
    let mut path: String = base.to_owned();
    if n > 0 && chars[n - 1] != '/' {
        proof {
            reveal_strlit("/");
        }
        path.append("/");
    }
    path.append(part);
    path
}

/// The directory two levels above `out_dir`, as `two_levels_up` defines it.
pub fn build_output_root(out_dir: &str) -> (root: String)
    ensures
        root@ == two_levels_up(out_dir@),
{
    let chars: Vec<char> = chars_of(out_dir);
    let n: usize = chars.len();
    if let Some(last) = find_last(&chars, '/', n) {
        if let Some(cut) = find_last(&chars, '/', last) {
            if chars[0] == '/' && is_plain_name(&chars, cut + 1, last) && is_plain_name(
                &chars,
                last + 1,
                n,
            ) {
                let kept: usize = if cut == 0 {
                    1
                } else {
                    cut
                };
                return out_dir.substring_char(0, kept).to_owned();
            }
        }
    }
    join(out_dir, "../..")
}

} // verus!
