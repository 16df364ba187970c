//! The incremental digest cache.
//!
//! Given a file's path and its current modification timestamp, reconciliation
//! decides whether the file can be skipped or must be (re)hashed, and commits
//! a fresh digest into the persisted record set.  A file is skipped exactly
//! when the store answers with a record whose timestamp equals the current
//! one; a failed store read is treated as "no record" and forces a rehash,
//! so stale content is never silently accepted.

use vstd::prelude::*;
use crate::digest::{hex_of, sha256_of, StreamingDigestComputer};
use crate::store::{contains_no_nul, FileRecord, PersistentStore, StoreError};

verus! {

/// Why a file was skipped without an outcome, or an outcome failed.
#[derive(Clone, Copy, PartialEq, Eq, Structural, Debug)]
pub enum Reason {
    /// The file's modification timestamp could not be read.
    MetadataError,
    /// The file's bytes could not be read to the end.
    ReadError,
}

/// The outcome of reconciling one file.
pub enum Outcome {
    /// The stored record's timestamp equals the current one: nothing done.
    Skipped,
    /// The file was (re)hashed; holds the new lowercase hexadecimal digest.
    Hashed(String),
    /// The file was skipped because of a failure; nothing was committed.
    Failed(Reason),
}

/// The decision of the check phase of reconciliation.
#[derive(Clone, Copy, PartialEq, Eq, Structural, Debug)]
pub enum CheckResult {
    /// The record is current: no digest is computed, no write occurs.
    Skipped,
    /// The file must be (re)hashed.
    Stale,
    /// The file is skipped without touching the store.
    Failed(Reason),
}

/// Whether a store answer lets the file be skipped: only a record whose
/// stored timestamp is exactly equal to the current one does; no record, a
/// different timestamp, and a failed store read all force a rehash.
pub open spec fn skip_decision(stored: Result<Option<FileRecord>, StoreError>, modified_ns: u64) -> bool {
    match stored {
        Ok(Some(rec)) => rec.modified_ns == modified_ns,
        Ok(None) => false,
        Err(_) => false,
    }
}

/// Decides from the store's answer whether the file can be skipped.
pub fn decide_skip(stored: &Result<Option<FileRecord>, StoreError>, modified_ns: u64) -> (r: bool)
    ensures
        r == skip_decision(*stored, modified_ns),
{
    match stored {
        Ok(Some(rec)) => rec.modified_ns == modified_ns,
        Ok(None) => false,
        Err(_) => false,
    }
}

/// The check phase of reconciliation: reads the record stored under `path`
/// and decides whether the file must be hashed.  `modified_ns` is the file's
/// current modification timestamp, or `None` when it could not be read.
///
/// The store is only read, never written: a skipped file's record is exactly
/// what it was before the call.
pub fn reconcile_check(store: &PersistentStore, path: &String, modified_ns: Option<u64>) -> (r: CheckResult)
    ensures
        r is Failed <==> modified_ns is None,
        r is Failed ==> r == CheckResult::Failed(Reason::MetadataError),
        r is Skipped ==> (match modified_ns {
            Some(t) => store.records().contains_key(path@) && store.records()[path@].1 == t,
            None => false,
        }),
        (match modified_ns {
            Some(t) => !(store.records().contains_key(path@) && store.records()[path@].1 == t)
                ==> r is Stale,
            None => true,
        }),
{
    match modified_ns {
        None => CheckResult::Failed(Reason::MetadataError),
        Some(t) => {
            let stored = store.get(path);
            if decide_skip(&stored, t) {
                CheckResult::Skipped
            } else {
                CheckResult::Stale
            }
        }
    }
}

/// The commit phase of reconciliation: finalizes the digest of the bytes the
/// computer has absorbed and upserts the file's record, or reports a failed
/// read.  `read_ok` says whether the file's bytes were all read; a partial
/// hash is never committed.  A failed store write leaves the record set
/// unchanged and is not retried; the computed digest is still returned.  A
/// path holding a NUL character — which no filesystem hands out — is not
/// written either, since the store cannot read such text back faithfully.
pub fn finish_reconcile(
    store: &mut PersistentStore,
    path: &String,
    computer: StreamingDigestComputer,
    read_ok: bool,
    modified_ns: u64,
) -> (r: Outcome)
    ensures
        !read_ok ==> r == Outcome::Failed(Reason::ReadError)
            && final(store).records() == old(store).records(),
        read_ok ==> (r matches Outcome::Hashed(d) && d@ == hex_of(sha256_of(computer.bytes()))
            && d@.len() == 64),
        read_ok ==> (final(store).records() == old(store).records().insert(
            path@,
            (hex_of(sha256_of(computer.bytes())), modified_ns),
        ) || final(store).records() == old(store).records()),
{
    if !read_ok {
        return Outcome::Failed(Reason::ReadError);
    }
    let digest = computer.finish_hex();
    let rec = FileRecord { path: path.clone(), digest: digest.clone(), modified_ns };
    if contains_no_nul(path) {
        proof {
            crate::digest::lemma_hex_of_no_nul(sha256_of(computer.bytes()));
        }
        let _ = store.upsert(&rec);
    }
    Outcome::Hashed(digest)
}

/// Idempotence of unchanged input: when the store answers with the record of
/// a file whose modification timestamp is unchanged, the decision is to
/// skip, and the check phase, which only reads the store, leaves the stored
/// record byte-identical.
pub proof fn lemma_unchanged_input_skipped(stored: Result<Option<FileRecord>, StoreError>, modified_ns: u64)
    requires
        stored matches Ok(o) && o matches Some(rec) && rec.modified_ns == modified_ns,
    ensures
        skip_decision(stored, modified_ns),
{
}

/// Change detection: whenever the store's answer is not a record with the
/// exact current timestamp — the timestamp differs, no record exists, or the
/// read failed — the decision is to rehash, and the record set committed for
/// the file reflects the new digest and timestamp.
pub proof fn lemma_change_detected(
    stored: Result<Option<FileRecord>, StoreError>,
    modified_ns: u64,
    records: Map<Seq<char>, (Seq<char>, u64)>,
    path: Seq<char>,
    digest: Seq<char>,
)
    requires
        !(stored matches Ok(o) && o matches Some(rec) && rec.modified_ns == modified_ns),
    ensures
        !skip_decision(stored, modified_ns),
        records.insert(path, (digest, modified_ns))[path] == (digest, modified_ns),
{
}

/// Uniqueness: the record set is a map keyed by path, and an upsert replaces
/// the one record at its path while leaving every other path's record in
/// place, so no sequence of reconcile operations can yield two records with
/// the same path key.
pub proof fn lemma_record_uniqueness(
    records: Map<Seq<char>, (Seq<char>, u64)>,
    path: Seq<char>,
    digest: Seq<char>,
    modified_ns: u64,
)
    ensures
        records.insert(path, (digest, modified_ns)).dom() == records.dom().insert(path),
        records.insert(path, (digest, modified_ns))[path] == (digest, modified_ns),
        forall|q: Seq<char>| q != path && records.dom().contains(q)
            ==> records.insert(path, (digest, modified_ns))[q] == records[q],
{
    assert(records.insert(path, (digest, modified_ns)).dom() =~= records.dom().insert(path));
}

} // verus!
