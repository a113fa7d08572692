//! Finding the directory into which FLTK was built.
//!
//! Cargo builds every package of a build into a directory of its own, all of
//! them side by side in one directory, and gives each build script the path of
//! its package's `out` directory. The directory of the package `fltk-sys` is
//! therefore one of the siblings of our own, and is known by its name.

use vstd::prelude::*;
use crate::path::{build_output_root, join, joined, two_levels_up};
use crate::text::{contains_text, has_substring};

verus! {

/// One entry of the directory that holds the builds: its name, and whether it
/// holds a directory `out`.
#[derive(Debug, PartialEq, Eq)]
pub struct Sibling {
    pub name: String,
    pub has_out: bool,
}

impl Clone for Sibling {
    fn clone(&self) -> (copy: Sibling)
        ensures
            copy@ == self@,
    {
        Sibling { name: self.name.clone(), has_out: self.has_out }
    }
}

/// What a `Sibling` says, with the name as the sequence of its characters.
pub struct SiblingView {
    pub name: Seq<char>,
    pub has_out: bool,
}

impl View for Sibling {
    type V = SiblingView;

    open spec fn view(&self) -> SiblingView {
        SiblingView { name: self.name@, has_out: self.has_out }
    }
}

impl DeepView for Sibling {
    type V = SiblingView;

    open spec fn deep_view(&self) -> SiblingView {
        self@
    }
}

/// The text by which the directory of FLTK's build is known: the name of the
/// package that builds it.
pub const FLTK_MARKER: &'static str = "fltk-sys";

/// The name of the directory into which the build script of a package writes.
pub const OUT_DIR_NAME: &'static str = "out";

/// The directory `out` in the directory `name` below `root`.
pub open spec fn nested_out(root: Seq<char>, name: Seq<char>) -> Seq<char> {
    joined(joined(root, name), OUT_DIR_NAME@)
}

/// Whether `sibling` is the directory of a build that `marker` names: its name
/// holds `marker`, and it holds a directory `out`.
pub open spec fn is_match(marker: Seq<char>, sibling: SiblingView) -> bool {
    has_substring(sibling.name, marker) && sibling.has_out
}

/// The directory `out` of the first of `siblings` that is a match, if one is.
pub open spec fn located(root: Seq<char>, marker: Seq<char>, siblings: Seq<SiblingView>) -> Option<
    Seq<char>,
>
    decreases siblings.len(),
{
    if siblings.len() == 0 {
        None
    } else if is_match(marker, siblings[0]) {
        Some(nested_out(root, siblings[0].name))
    } else {
        located(root, marker, siblings.skip(1))
    }
}

/// The first match wins: what is found is the directory `out` of a match
/// before which no match stands, and nothing is found only where there is no
/// match at all.
pub proof fn lemma_first_match_wins(
    root: Seq<char>,
    marker: Seq<char>,
    siblings: Seq<SiblingView>,
)
    ensures
        match located(root, marker, siblings) {
            Some(dir) => exists|k: int|
                {
                    &&& 0 <= k < siblings.len()
                    &&& #[trigger] is_match(marker, siblings[k])
                    &&& dir == nested_out(root, siblings[k].name)
                    &&& forall|j: int| 0 <= j < k ==> !is_match(marker, #[trigger] siblings[j])
                },
            None => forall|k: int|
                0 <= k < siblings.len() ==> !is_match(marker, #[trigger] siblings[k]),
        },
    decreases siblings.len(),
{
    if siblings.len() > 0 && !is_match(marker, siblings[0]) {
        let rest = siblings.skip(1);
        lemma_first_match_wins(root, marker, rest);
        match located(root, marker, rest) {
            Some(dir) => {
                let k = choose|k: int|
                    {
                        &&& 0 <= k < rest.len()
                        &&& #[trigger] is_match(marker, rest[k])
                        &&& dir == nested_out(root, rest[k].name)
                        &&& forall|j: int| 0 <= j < k ==> !is_match(marker, #[trigger] rest[j])
                    };
                assert(siblings[k + 1] == rest[k]);
                assert forall|j: int| 0 <= j < k + 1 implies !is_match(
                    marker,
                    #[trigger] siblings[j],
                ) by {
                    if j > 0 {
                        assert(siblings[j] == rest[j - 1]);
                    }
                }
            },
            None => {
                assert forall|k: int| 0 <= k < siblings.len() implies !is_match(
                    marker,
                    #[trigger] siblings[k],
                ) by {
                    if k > 0 {
                        assert(siblings[k] == rest[k - 1]);
                    }
                }
            },
        }
    }
}

/// A listing may be gone through in parts: what is found in two listings put
/// together is what is found in the first of them, and only where nothing is
/// found there, what is found in the second. So a caller that hands over one
/// entry after the other may stop at the first in which something is found.
pub proof fn lemma_located_in_parts(
    root: Seq<char>,
    marker: Seq<char>,
    first: Seq<SiblingView>,
    second: Seq<SiblingView>,
)
    ensures
        located(root, marker, first + second) == if located(root, marker, first) is Some {
            located(root, marker, first)
        } else {
            located(root, marker, second)
        },
    decreases first.len(),
{
    if first.len() > 0 {
        assert((first + second).skip(1) =~= first.skip(1) + second);
        lemma_located_in_parts(root, marker, first.skip(1), second);
    }
}

/// Where exactly one of `siblings` is a match, its directory `out` is found.
pub proof fn lemma_single_match_found(
    root: Seq<char>,
    marker: Seq<char>,
    siblings: Seq<SiblingView>,
    k: int,
)
    requires
        0 <= k < siblings.len(),
        is_match(marker, siblings[k]),
        forall|j: int| 0 <= j < siblings.len() && j != k ==> !is_match(marker, siblings[j]),
    ensures
        located(root, marker, siblings) == Some(nested_out(root, siblings[k].name)),
{
    lemma_first_match_wins(root, marker, siblings);
}

/// Where the name of none of `siblings` holds `marker`, nothing is found.
pub proof fn lemma_no_name_matches(root: Seq<char>, marker: Seq<char>, siblings: Seq<SiblingView>)
    requires
        forall|j: int| 0 <= j < siblings.len() ==> !has_substring(siblings[j].name, marker),
    ensures
        located(root, marker, siblings) is None,
{
    lemma_first_match_wins(root, marker, siblings);
}

/// The directory `out` in the directory `name` below `root`.
pub fn nested_out_dir(root: &str, name: &str) -> (dir: String)
    ensures
        dir@ == nested_out(root@, name@),
{
    let below: String = join(root, name);
    join(below.as_str(), OUT_DIR_NAME)
}

/// The directory `out` of the first of `siblings`, the directories in `root`,
/// whose name holds `marker` and which holds a directory `out`; `None` where
/// there is no such sibling.
///
/// Where several siblings match, the one that stands first in `siblings` is
/// taken: the order of the listing decides, and nothing else.
pub fn locate_out_dir(root: &str, marker: &str, siblings: &Vec<Sibling>) -> (found: Option<String>)
    ensures
        found.deep_view() == located(root@, marker@, siblings.deep_view()),
        found is Some <==> exists|k: int|
            0 <= k < siblings.len() && is_match(marker@, (#[trigger] siblings[k])@),
{
    let ghost all = siblings.deep_view();
    proof {
        lemma_first_match_wins(root@, marker@, all);
        assert forall|k: int| 0 <= k < siblings.len() implies all[k] == (#[trigger] siblings[k])@
        by {}
    }
    let n: usize = siblings.len();
    let mut i: usize = 0;
    assert(all.skip(0) =~= all);
    while i < n
        invariant
            n == siblings.len(),
            all == siblings.deep_view(),
            i <= n,
            located(root@, marker@, all) == located(root@, marker@, all.skip(i as int)),
        decreases n - i,
    {
        let sibling: &Sibling = &siblings[i];
        assert(all.skip(i as int).skip(1) =~= all.skip(i + 1));
        if sibling.has_out && contains_text(sibling.name.as_str(), marker) {
            return Some(nested_out_dir(root, sibling.name.as_str()));
        }
        i += 1;
    }
    None
}

/// The directory into which FLTK was built, for a build script whose own
/// output directory is `out_dir`.
///
/// `siblings` are the entries of the directory two levels above `out_dir`, in
/// the order in which they were listed. The first of them whose name holds
/// `fltk-sys` and which holds a directory `out` is taken, and the path of that
/// directory `out` returned; `None` where there is no such sibling. Where
/// several match, the order of the listing decides.
///
/// The listing may be handed over in parts, down to one entry at a time: by
/// `lemma_located_in_parts` the first part in which something is found gives
/// what the whole listing gives.
pub fn fltk_out_dir(out_dir: &str, siblings: &Vec<Sibling>) -> (found: Option<String>)
    ensures
        found.deep_view() == located(two_levels_up(out_dir@), FLTK_MARKER@, siblings.deep_view()),
        found is Some <==> exists|k: int|
            0 <= k < siblings.len() && is_match(FLTK_MARKER@, (#[trigger] siblings[k])@),
{
    let root: String = build_output_root(out_dir);
    locate_out_dir(root.as_str(), FLTK_MARKER, siblings)
}

} // verus!
