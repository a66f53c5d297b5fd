//! Selection of the most recently modified artifact among the candidates
//! enumerated from the build output tree.
//!
//! A candidate is a regular file seen during the walk: its base name, the
//! chain of directory names between the output root and the file, and its
//! modification timestamp. The locator keeps the files whose base name is
//! in the filter set and whose directory chain carries the requested build
//! mode and target triple, and picks a candidate of greatest timestamp.

use vstd::prelude::*;

use crate::args::FilterSet;

verus! {

/// One regular file found under the build output root.
#[derive(Debug)]
pub struct CandidateFile {
    /// The file's base name.
    pub name: String,
    /// The names of the directories between the output root and the file,
    /// outermost first, the file's own name excluded.
    pub dir_components: Vec<String>,
    /// The file's modification time; greater is more recent.
    pub mtime: u64,
}

/// Whether one of the strings reads `s`.
pub open spec fn contains_name(names: Seq<Seq<char>>, s: Seq<char>) -> bool {
    exists|k: int| 0 <= k < names.len() && names[k] == s
}

/// Whether a candidate passes the filters, stated over the plain views:
/// its base name is one of `names`, and each present constraint names one
/// of its directory components exactly.
pub open spec fn spec_matches(
    c: CandidateFile,
    names: Seq<Seq<char>>,
    mode: Option<Seq<char>>,
    target: Option<Seq<char>>,
) -> bool {
    &&& contains_name(names, c.name@)
    &&& (mode matches Some(m) ==> contains_name(c.dir_components.deep_view(), m))
    &&& (target matches Some(t) ==> contains_name(c.dir_components.deep_view(), t))
}

/// Whether a candidate passes a resolved filter set.
pub open spec fn candidate_matches(c: CandidateFile, f: FilterSet) -> bool {
    spec_matches(c, f.names.deep_view(), f.build_mode.deep_view(), f.build_target.deep_view())
}

/// With a singleton name set, a candidate passes the filters only under
/// exactly that name.
pub proof fn lemma_singleton_name_filter(c: CandidateFile, f: FilterSet)
    requires
        f.names@.len() == 1,
        candidate_matches(c, f),
    ensures
        c.name@ == f.names@[0]@,
{
    let names = f.names.deep_view();
    let k = choose|k: int| 0 <= k < names.len() && names[k] == c.name@;
    assert(k == 0);
}

/// When the matching candidates bear pairwise distinct modification times,
/// a maximal one among them is strictly newer than every other match.
pub proof fn lemma_distinct_mtimes_strict(candidates: Seq<CandidateFile>, f: FilterSet, chosen: int)
    requires
        0 <= chosen < candidates.len(),
        candidate_matches(candidates[chosen], f),
        forall|k: int|
            0 <= k < candidates.len() && candidate_matches(candidates[k], f)
                ==> candidates[k].mtime <= candidates[chosen].mtime,
        forall|k1: int, k2: int|
            0 <= k1 < k2 < candidates.len() && candidate_matches(candidates[k1], f)
                && candidate_matches(candidates[k2], f) ==> candidates[k1].mtime
                != candidates[k2].mtime,
    ensures
        forall|k: int|
            0 <= k < candidates.len() && k != chosen && candidate_matches(candidates[k], f)
                ==> candidates[k].mtime < candidates[chosen].mtime,
{
}

/// Whether one of the strings equals `s`, by exact equality.
fn vec_contains_string(xs: &Vec<String>, s: &String) -> (r: bool)
    ensures
        r == contains_name(xs.deep_view(), s@),
{
    let n = xs.len();
    for i in 0..n
        invariant
            n == xs@.len(),
            forall|k: int| 0 <= k < i ==> xs@[k]@ != s@,
    {
        if xs[i] == *s {
            assert(xs.deep_view()[i as int] == s@);
            return true;
        }
    }
    false
}

/// Whether a candidate passes a resolved filter set.
fn matches_filters(c: &CandidateFile, f: &FilterSet) -> (r: bool)
    ensures
        r == candidate_matches(*c, *f),
{
    if !vec_contains_string(&f.names, &c.name) {
        return false;
    }
    match &f.build_mode {
        Some(m) => if !vec_contains_string(&c.dir_components, m) {
            return false;
        },
        None => {},
    }
    match &f.build_target {
        Some(t) => if !vec_contains_string(&c.dir_components, t) {
            return false;
        },
        None => {},
    }
    true
}

/// Locates the artifact to attach to: the index of a matching candidate of
/// greatest modification time, or `None` when no candidate matches. Among
/// equally recent matches the last one is taken.
pub fn find_executable(candidates: &Vec<CandidateFile>, filters: &FilterSet) -> (r: Option<usize>)
    ensures
        match r {
            Some(idx) => idx < candidates@.len() && candidate_matches(
                candidates@[idx as int],
                *filters,
            ) && forall|k: int|
                0 <= k < candidates@.len() && candidate_matches(candidates@[k], *filters)
                    ==> candidates@[k].mtime <= candidates@[idx as int].mtime,
            None => forall|k: int|
                0 <= k < candidates@.len() ==> !candidate_matches(candidates@[k], *filters),
        },
{
    let n = candidates.len();
    let mut best: Option<usize> = None;
    for i in 0..n
        invariant
            n == candidates@.len(),
            match best {
                Some(b) => b < i && candidate_matches(candidates@[b as int], *filters) && forall|
                    k: int,
                |
                    0 <= k < i && candidate_matches(candidates@[k], *filters) ==> candidates@[k].mtime
                        <= candidates@[b as int].mtime,
                None => forall|k: int| 0 <= k < i ==> !candidate_matches(candidates@[k], *filters),
            },
    {
        if matches_filters(&candidates[i], filters) {
            best = match best {
                Some(b) => if candidates[i].mtime >= candidates[b].mtime {
                    Some(i)
                } else {
                    Some(b)
                },
                None => Some(i),
            };
        }
    }
    best
}

} // verus!
