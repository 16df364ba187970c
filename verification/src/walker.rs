//! Directory traversal.
//!
//! The walker performs a depth-first, pre-order traversal driven by an
//! explicit stack of pending entries rather than the native call stack.  The
//! caller pops the next pending entry; for a directory it lists the entries
//! on disk and offers them back, for a regular file it runs the reconcile
//! pipeline.  Every offered entry is screened: entries exactly matching an
//! exclusion entry are never admitted, and entry types other than directory
//! and regular file are silently ignored.  A directory whose listing fails
//! is simply not offered back: its subtree is treated as empty and
//! traversal of siblings and ancestors continues.

use vstd::prelude::*;
use crate::exclude::ExclusionFilter;

verus! {

/// What kind of entry a traversal candidate is.
#[derive(Clone, Copy, PartialEq, Eq, Structural, Debug)]
pub enum EntryKind {
    Directory,
    File,
    /// Anything else (symbolic link, device, socket, fifo): ignored.
    Other,
}

/// One traversal candidate: a path and what it is.
pub struct DirEntry {
    pub path: String,
    pub kind: EntryKind,
}

/// Whether the walker admits an offered entry to its pending stack: only
/// directories and regular files, and never a path exactly matching an
/// exclusion entry.
pub open spec fn admits(filter: ExclusionFilter, e: DirEntry) -> bool {
    e.kind != EntryKind::Other && !filter.excludes(e.path@)
}

/// The subsequence of offered entries the walker admits, in offer order.
pub open spec fn admitted(entries: Seq<DirEntry>, filter: ExclusionFilter) -> Seq<DirEntry>
    decreases entries.len(),
{
    if entries.len() == 0 {
        Seq::<DirEntry>::empty()
    } else {
        let prefix = admitted(entries.drop_last(), filter);
        if admits(filter, entries.last()) {
            prefix.push(entries.last())
        } else {
            prefix
        }
    }
}

/// Drives the depth-first, pre-order traversal through an explicit stack of
/// pending entries.
pub struct DirectoryWalker {
    pub filter: ExclusionFilter,
    pub stack: Vec<DirEntry>,
}

impl DirectoryWalker {
    pub fn new(filter: ExclusionFilter) -> (w: DirectoryWalker)
        ensures
            w.stack@ == Seq::<DirEntry>::empty(),
            w.filter == filter,
    {
        DirectoryWalker { filter, stack: Vec::new() }
    }

    /// Makes the traversal root pending.  The root itself is not screened
    /// against the exclusion entries; only offered entries are.
    pub fn push_root(&mut self, root: String)
        ensures
            final(self).stack@ == old(self).stack@.push(
                (DirEntry { path: root, kind: EntryKind::Directory }),
            ),
            final(self).filter == old(self).filter,
    {
        self.stack.push(DirEntry { path: root, kind: EntryKind::Directory });
    }

    /// Pops the next pending entry, or reports that the traversal is
    /// complete.
    pub fn pop_next(&mut self) -> (r: Option<DirEntry>)
        ensures
            old(self).stack@.len() == 0 ==> r is None && final(self).stack@ == old(self).stack@
                && final(self).filter == old(self).filter,
            old(self).stack@.len() > 0 ==> (r matches Some(e) && e == old(self).stack@.last()
                && final(self).stack@ == old(self).stack@.drop_last()
                && final(self).filter == old(self).filter),
    {
        self.stack.pop()
    }

    /// Offers the listed entries of a directory.  Each admitted entry —
    /// directory or regular file, not matching an exclusion entry — becomes
    /// pending, in offer order; the rest are dropped.
    pub fn offer_entries(&mut self, entries: &Vec<DirEntry>)
        ensures
            final(self).stack@ == old(self).stack@ + admitted(entries@, old(self).filter),
            final(self).filter == old(self).filter,
    {
        let mut i: usize = 0;
        proof {
            assert(entries@.take(0) =~= Seq::<DirEntry>::empty());
            assert(old(self).stack@ + admitted(entries@.take(0), old(self).filter) =~= old(self).stack@);
        }
        while i < entries.len()
            invariant
                i <= entries@.len(),
                self.filter == old(self).filter,
                self.stack@ == old(self).stack@ + admitted(entries@.take(i as int), old(self).filter),
            decreases entries@.len() - i,
        {
            let e = &entries[i];
            let keep = match e.kind {
                EntryKind::Other => false,
                _ => !self.filter.is_excluded(&e.path),
            };
            if keep {
                self.stack.push(DirEntry { path: e.path.clone(), kind: e.kind });
            }
            proof {
                assert(entries@.take(i + 1 as int).drop_last() =~= entries@.take(i as int));
                assert(entries@.take(i + 1 as int).last() == entries@[i as int]);
                assert(self.stack@ =~= old(self).stack@ + admitted(entries@.take(i + 1 as int), old(self).filter));
            }
            i = i + 1;
        }
        proof {
            assert(entries@.take(i as int) =~= entries@);
        }
    }
}

/// Every admitted entry satisfies the admission test.
pub proof fn lemma_admitted_admits(entries: Seq<DirEntry>, filter: ExclusionFilter)
    ensures
        forall|i: int| 0 <= i < admitted(entries, filter).len()
            ==> admits(filter, #[trigger] admitted(entries, filter)[i]),
    decreases entries.len(),
{
    if entries.len() > 0 {
        lemma_admitted_admits(entries.drop_last(), filter);
        let a = admitted(entries, filter);
        let prefix = admitted(entries.drop_last(), filter);
        assert forall|i: int| 0 <= i < a.len() implies admits(filter, #[trigger] a[i]) by {
            if i < prefix.len() {
                assert(a[i] == prefix[i]);
            } else {
                assert(a[i] == entries.last());
            }
        }
    }
}

/// Exclusion enforcement: a path exactly matching an exclusion entry is
/// never admitted to the pending stack, whatever entries are offered — the
/// walker neither opens it nor recurses into it, so nothing beneath an
/// excluded directory is ever offered either.
pub proof fn lemma_exclusion_enforced(entries: Seq<DirEntry>, filter: ExclusionFilter, p: Seq<char>)
    requires
        filter.excludes(p),
    ensures
        forall|i: int| 0 <= i < admitted(entries, filter).len()
            ==> (#[trigger] admitted(entries, filter)[i]).path@ != p,
{
    lemma_admitted_admits(entries, filter);
}

} // verus!
