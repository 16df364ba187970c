//! Exclusion of paths from traversal and hashing.
//!
//! An exclusion entry is a path compared by exact equality against each
//! traversal candidate: children of an excluded directory are protected only
//! because the walker never descends into the excluded entry itself.

use vstd::prelude::*;

verus! {

/// The view of a list of path strings: the sequence of their character
/// sequences.
pub open spec fn paths_view(list: Seq<String>) -> Seq<Seq<char>> {
    list.map_values(|s: String| s@)
}

/// Holds an immutable set of paths that must never be entered or hashed.
pub struct ExclusionFilter {
    pub entries: Vec<String>,
}

impl ExclusionFilter {
    /// Whether `candidate` exactly equals one of the configured entries.
    pub open spec fn excludes(self, candidate: Seq<char>) -> bool {
        paths_view(self.entries@).contains(candidate)
    }

    pub fn new(entries: Vec<String>) -> (r: ExclusionFilter)
        ensures
            r.entries == entries,
    {
        ExclusionFilter { entries }
    }

    /// True iff `candidate` is exactly equal to one of the configured
    /// exclusion entries; a pure lookup with no side effects.
    pub fn is_excluded(&self, candidate: &String) -> (r: bool)
        ensures
            r == self.excludes(candidate@),
    {
        is_excluded_path(candidate, &self.entries)
    }
}

/// True iff `filename` exactly equals an element of `exclude_list`.
pub fn is_excluded_path(filename: &String, exclude_list: &Vec<String>) -> (r: bool)
    ensures
        r == paths_view(exclude_list@).contains(filename@),
{
    let mut i: usize = 0;
    while i < exclude_list.len()
        invariant
            i <= exclude_list@.len(),
            forall|j: int| 0 <= j < i ==> paths_view(exclude_list@)[j] != filename@,
        decreases exclude_list@.len() - i,
    {
        if filename.eq(&exclude_list[i]) {
            assert(paths_view(exclude_list@)[i as int] == filename@);
            return true;
        }
        assert(paths_view(exclude_list@)[i as int] == exclude_list@[i as int]@);
        i = i + 1;
    }
    false
}

/// Builds the exclusion entries for a run: the given paths (the store's own
/// data directory among them) followed by a small fixed set of
/// system-reserved locations.
pub fn populate_exclude_list(list: &Vec<String>) -> (r: Vec<String>)
    ensures
        paths_view(r@) == paths_view(list@) + seq!["/dev"@, "/proc"@, "/tmp"@, "/var"@],
{
    let mut r: Vec<String> = Vec::new();
    let mut i: usize = 0;
    while i < list.len()
        invariant
            i <= list@.len(),
            r@.len() == i,
            forall|j: int| 0 <= j < i ==> r@[j]@ == list@[j]@,
        decreases list@.len() - i,
    {
        r.push(list[i].clone());
        i = i + 1;
    }
    r.push(String::from_str("/dev"));
    r.push(String::from_str("/proc"));
    r.push(String::from_str("/tmp"));
    r.push(String::from_str("/var"));
    proof {
        assert(paths_view(r@) =~= paths_view(list@) + seq!["/dev"@, "/proc"@, "/tmp"@, "/var"@]);
    }
    r
}

} // verus!
