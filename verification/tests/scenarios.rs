use fshash::cache::{decide_skip, finish_reconcile, reconcile_check, CheckResult, Outcome, Reason};
use fshash::digest::StreamingDigestComputer;
use fshash::exclude::ExclusionFilter;
use fshash::store::PersistentStore;
use fshash::walker::{DirEntry, DirectoryWalker, EntryKind};

const HELLO_SHA256: &str = "2cf24dba5fb0a30e26e83b2ac5b9e29e1b161e5c1fa7425e73043362938b9824";

fn memory_store() -> PersistentStore {
    PersistentStore::open(&String::from(":memory:")).expect("in-memory store opens")
}

fn entry(path: &str, kind: EntryKind) -> DirEntry {
    DirEntry { path: String::from(path), kind }
}

#[test]
fn empty_tree_creates_no_records() {
    // Scenario: an empty directory tree.
    let store = memory_store();
    let filter = ExclusionFilter::new(Vec::new());
    let mut walker = DirectoryWalker::new(filter);
    walker.push_root(String::from("."));

    let root = walker.pop_next().expect("root is pending");
    assert_eq!(root.path, ".");
    assert!(matches!(root.kind, EntryKind::Directory));
    walker.offer_entries(&Vec::new());
    assert!(walker.pop_next().is_none());

    assert_eq!(store.record_count().unwrap(), 0);
}

#[test]
fn one_file_is_hashed_and_recorded() {
    // Scenario: one file `./a.txt` containing `hello`.
    let mut store = memory_store();
    let path = String::from("./a.txt");
    let modified_ns: u64 = 1_700_000_000_123_456_789;

    let check = reconcile_check(&store, &path, Some(modified_ns));
    assert_eq!(check, CheckResult::Stale);

    let mut computer = StreamingDigestComputer::new();
    computer.absorb(b"hello");
    let outcome = finish_reconcile(&mut store, &path, computer, true, modified_ns);
    match outcome {
        Outcome::Hashed(d) => assert_eq!(d, HELLO_SHA256),
        _ => panic!("expected a hashed outcome"),
    }

    assert_eq!(store.record_count().unwrap(), 1);
    let rec = store.get(&path).unwrap().expect("record exists");
    assert_eq!(rec.path, "./a.txt");
    assert_eq!(rec.digest, HELLO_SHA256);
    assert_eq!(rec.modified_ns, modified_ns);
}

#[test]
fn unchanged_file_is_skipped_second_run() {
    // Scenario: run twice without modifying the file.
    let mut store = memory_store();
    let path = String::from("./a.txt");
    let modified_ns: u64 = 42_000_000_001;

    let mut computer = StreamingDigestComputer::new();
    computer.absorb(b"hello");
    finish_reconcile(&mut store, &path, computer, true, modified_ns);
    let before = store.get(&path).unwrap().expect("record exists");

    let second = reconcile_check(&store, &path, Some(modified_ns));
    assert_eq!(second, CheckResult::Skipped);

    let after = store.get(&path).unwrap().expect("record still exists");
    assert_eq!(after.path, before.path);
    assert_eq!(after.digest, before.digest);
    assert_eq!(after.modified_ns, before.modified_ns);
    assert_eq!(store.record_count().unwrap(), 1);
}

#[test]
fn modified_file_is_rehashed_and_replaced() {
    // Scenario: the file's content and timestamp change between two runs.
    let mut store = memory_store();
    let path = String::from("./a.txt");
    let first_ns: u64 = 10_000;
    let second_ns: u64 = 20_000;

    let mut computer = StreamingDigestComputer::new();
    computer.absorb(b"hello");
    finish_reconcile(&mut store, &path, computer, true, first_ns);

    let check = reconcile_check(&store, &path, Some(second_ns));
    assert_eq!(check, CheckResult::Stale);

    let mut computer = StreamingDigestComputer::new();
    computer.absorb(b"hello, changed");
    let outcome = finish_reconcile(&mut store, &path, computer, true, second_ns);
    let new_digest = match outcome {
        Outcome::Hashed(d) => d,
        _ => panic!("expected a hashed outcome"),
    };
    assert_ne!(new_digest, HELLO_SHA256);

    let rec = store.get(&path).unwrap().expect("record exists");
    assert_eq!(rec.digest, new_digest);
    assert_eq!(rec.modified_ns, second_ns);
    assert_eq!(store.record_count().unwrap(), 1);
}

#[test]
fn data_directory_is_never_traversed() {
    // Scenario: a directory entry exactly equal to the store's own data
    // directory is present under the traversal root.
    let data_dir = "/home/user/.local/share/fingerprints";
    let mut store = memory_store();
    let filter = ExclusionFilter::new(vec![String::from(data_dir)]);
    let mut walker = DirectoryWalker::new(filter);
    walker.push_root(String::from("."));

    let root = walker.pop_next().expect("root is pending");
    assert!(matches!(root.kind, EntryKind::Directory));
    walker.offer_entries(&vec![
        entry(data_dir, EntryKind::Directory),
        entry("./a.txt", EntryKind::File),
    ]);

    // Only the regular file is pending; the excluded directory was never
    // admitted, so nothing beneath it can ever be offered.
    let next = walker.pop_next().expect("the file is pending");
    assert_eq!(next.path, "./a.txt");
    assert!(matches!(next.kind, EntryKind::File));
    let modified_ns: u64 = 7;
    let mut computer = StreamingDigestComputer::new();
    computer.absorb(b"hello");
    finish_reconcile(&mut store, &next.path, computer, true, modified_ns);
    assert!(walker.pop_next().is_none());

    assert_eq!(store.record_count().unwrap(), 1);
    assert!(store.get(&String::from(data_dir)).unwrap().is_none());
}

#[test]
fn metadata_failure_skips_without_store_interaction() {
    let store = memory_store();
    let path = String::from("./a.txt");
    let check = reconcile_check(&store, &path, None);
    assert_eq!(check, CheckResult::Failed(Reason::MetadataError));
    assert_eq!(store.record_count().unwrap(), 0);
}

#[test]
fn failed_read_commits_nothing() {
    let mut store = memory_store();
    let path = String::from("./a.txt");
    let mut computer = StreamingDigestComputer::new();
    computer.absorb(b"partial conte");
    let outcome = finish_reconcile(&mut store, &path, computer, false, 5);
    assert!(matches!(outcome, Outcome::Failed(Reason::ReadError)));
    assert_eq!(store.record_count().unwrap(), 0);
    assert!(store.get(&path).unwrap().is_none());
}

#[test]
fn skip_decision_matches_stored_timestamp_exactly() {
    let mut store = memory_store();
    let path = String::from("./a.txt");
    let mut computer = StreamingDigestComputer::new();
    computer.absorb(b"hello");
    finish_reconcile(&mut store, &path, computer, true, 1000);

    let stored = store.get(&path);
    assert!(decide_skip(&stored, 1000));
    assert!(!decide_skip(&stored, 1001));
    assert!(!decide_skip(&stored, 999));

    let missing = store.get(&String::from("./other.txt"));
    assert!(!decide_skip(&missing, 1000));
}

#[test]
fn nul_path_is_hashed_but_not_committed() {
    // No filesystem hands out a path with an interior NUL; were one ever
    // offered, the store could not read such a key's text back faithfully,
    // so nothing is written for it.
    let mut store = memory_store();
    let path = String::from("./a\0.txt");
    let mut computer = StreamingDigestComputer::new();
    computer.absorb(b"hello");
    let outcome = finish_reconcile(&mut store, &path, computer, true, 9);
    match outcome {
        Outcome::Hashed(d) => assert_eq!(d, HELLO_SHA256),
        _ => panic!("expected a hashed outcome"),
    }
    assert_eq!(store.record_count().unwrap(), 0);
}

#[test]
fn store_open_fails_in_missing_directory() {
    let r = PersistentStore::open(&String::from("/surely-absent-dir-for-this-test/data.sql"));
    assert!(r.is_err());
}
