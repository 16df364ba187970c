//! The persisted record store.
//!
//! A `PersistentStore` is a table in an embedded relational database, keyed
//! by path: for every fingerprinted file it holds one record with the file's
//! digest and the modification timestamp observed at hash time.  The store is
//! owned exclusively by one process and accessed sequentially; its contents
//! are modelled as a map from path to digest and timestamp.
//!
//! Timestamps are whole nanoseconds since the epoch, compared exactly: any
//! drift, however small, counts as a change and forces a rehash.

use vstd::prelude::*;

verus! {

/// A persisted record: one file's path, its lowercase hexadecimal digest,
/// and the modification timestamp (nanoseconds since the epoch) observed
/// when the digest was computed.
pub struct FileRecord {
    pub path: String,
    pub digest: String,
    pub modified_ns: u64,
}

/// The store could not be opened, read or written.
#[derive(Clone, Copy, PartialEq, Eq, Structural, Debug)]
pub enum StoreError {
    Unavailable,
}

#[verifier::external_type_specification]
#[verifier::external_body]
pub struct ExConnection(sqlite::Connection);

/// Whether a text holds no NUL character.  Text is handed to the database by
/// pointer and length, so a NUL is stored verbatim, but a text column is
/// read back through a C string, which ends at the first NUL: only NUL-free
/// text round-trips through the store faithfully.
pub open spec fn has_no_nul(s: Seq<char>) -> bool {
    forall|i: int| 0 <= i < s.len() ==> s[i] != '\0'
}

/// True iff no character of `s` is the NUL character.
pub fn contains_no_nul(s: &String) -> (r: bool)
    ensures
        r == has_no_nul(s@),
{
    let n = s.as_str().unicode_len();
    let mut i: usize = 0;
    while i < n
        invariant
            n == s@.len(),
            i <= n,
            forall|j: int| 0 <= j < i ==> s@[j] != '\0',
        decreases n - i,
    {
        if s.as_str().get_char(i) == '\0' {
            return false;
        }
        i = i + 1;
    }
    true
}

/// What the record table reachable through a connection holds: for each path
/// with a record, the record's digest characters and modification timestamp.
pub uninterp spec fn store_records(c: sqlite::Connection) -> Map<Seq<char>, (Seq<char>, u64)>;

/// Holds the connection to the embedded database.
pub struct PersistentStore {
    conn: sqlite::Connection,
}

impl PersistentStore {
    /// The store's contents, path to digest and timestamp.
    pub closed spec fn records(self) -> Map<Seq<char>, (Seq<char>, u64)> {
        store_records(self.conn)
    }

    /// Relies on `sqlite::Connection::open` and `Connection::execute` with a
    /// single `CREATE TABLE IF NOT EXISTS`: opens or creates the backing
    /// database and ensures the record table exists.  Idempotent; the
    /// records already in the backing file are kept.
    #[verifier::external_body]
    fn open_raw(path: &str) -> (r: Result<PersistentStore, StoreError>) {
        let conn = sqlite::Connection::open(path).map_err(|_| StoreError::Unavailable)?;
        let schema = "CREATE TABLE IF NOT EXISTS file_hashes (path TEXT NOT NULL PRIMARY KEY, hash TEXT NOT NULL, date_modified INTEGER NOT NULL)";
        conn.execute(schema).map_err(|_| StoreError::Unavailable)?;
        Ok(PersistentStore { conn })
    }

    /// Relies on a `SELECT` by the primary key `path`: a returned row is the
    /// one record stored under the path, and a successful query without a
    /// row means no record is stored under it.
    #[verifier::external_body]
    fn get_raw(&self, path: &str) -> (r: Result<Option<(String, u64)>, StoreError>)
        ensures
            (match r {
                Ok(Some(p)) => store_records(self.conn).contains_key(path@)
                    && store_records(self.conn)[path@] == (p.0@, p.1),
                Ok(None) => !store_records(self.conn).contains_key(path@),
                Err(_) => true,
            }),
    {
        let mut st = self.conn.prepare("SELECT hash, date_modified FROM file_hashes WHERE path = ?").map_err(|_| StoreError::Unavailable)?;
        st.bind((1, path)).map_err(|_| StoreError::Unavailable)?;
        match st.next() {
            Ok(sqlite::State::Row) => {
                let hash: String = st.read(0).map_err(|_| StoreError::Unavailable)?;
                let modified: i64 = st.read(1).map_err(|_| StoreError::Unavailable)?;
                Ok(Some((hash, modified as u64)))
            }
            Ok(sqlite::State::Done) => Ok(None),
            Err(_) => Err(StoreError::Unavailable),
        }
    }

    /// Relies on a single `INSERT OR REPLACE` statement keyed by `path`: on
    /// success the new row replaces any prior row with the same path and
    /// every other row is untouched; a failed statement leaves the table
    /// unchanged.  NUL-free text is demanded because a stored NUL would be
    /// kept verbatim yet truncate the later column read (see `has_no_nul`).
    #[verifier::external_body]
    fn upsert_raw(&mut self, path: &str, digest: &str, modified_ns: u64) -> (r: Result<(), StoreError>)
        requires
            has_no_nul(path@),
            has_no_nul(digest@),
        ensures
            r is Ok ==> store_records(final(self).conn) == store_records(old(self).conn).insert(path@, (digest@, modified_ns)),
            r is Err ==> store_records(final(self).conn) == store_records(old(self).conn),
    {
        let sql = "INSERT OR REPLACE INTO file_hashes (path, hash, date_modified) VALUES (?, ?, ?)";
        let mut st = self.conn.prepare(sql).map_err(|_| StoreError::Unavailable)?;
        st.bind((1, path)).map_err(|_| StoreError::Unavailable)?;
        st.bind((2, digest)).map_err(|_| StoreError::Unavailable)?;
        st.bind((3, modified_ns as i64)).map_err(|_| StoreError::Unavailable)?;
        match st.next() {
            Ok(sqlite::State::Done) => Ok(()),
            _ => Err(StoreError::Unavailable),
        }
    }

    /// Relies on `SELECT COUNT(*)`: the number of rows of the table, which
    /// holds one row per recorded path.
    #[verifier::external_body]
    fn count_raw(&self) -> (r: Result<u64, StoreError>)
        ensures
            r matches Ok(n) ==> store_records(self.conn).dom().finite() && n == store_records(self.conn).dom().len(),
    {
        let mut st = self.conn.prepare("SELECT COUNT(*) FROM file_hashes").map_err(|_| StoreError::Unavailable)?;
        match st.next() {
            Ok(sqlite::State::Row) => Ok(st.read::<i64, _>(0).map_err(|_| StoreError::Unavailable)? as u64),
            _ => Err(StoreError::Unavailable),
        }
    }

    /// Opens (or creates) the store at `path` and ensures its table exists.
    /// Creation failures are fatal for the run and reported to the caller.
    pub fn open(path: &String) -> (r: Result<PersistentStore, StoreError>) {
        Self::open_raw(path.as_str())
    }

    /// Queries the record stored under `path`, if any.  A returned record is
    /// the stored one; a successful lookup without a record means the path
    /// has none.  An error says nothing about the contents.
    pub fn get(&self, path: &String) -> (r: Result<Option<FileRecord>, StoreError>)
        ensures
            (match r {
                Ok(Some(rec)) => rec.path@ == path@
                    && self.records().contains_key(path@)
                    && self.records()[path@] == (rec.digest@, rec.modified_ns),
                Ok(None) => !self.records().contains_key(path@),
                Err(_) => true,
            }),
    {
        match self.get_raw(path.as_str()) {
            Ok(Some(p)) => {
                let (digest, modified_ns) = p;
                Ok(Some(FileRecord { path: path.clone(), digest, modified_ns }))
            }
            Ok(None) => Ok(None),
            Err(e) => Err(e),
        }
    }

    /// Writes `rec` under its path, replacing any prior record with the same
    /// path and leaving every other record in place.  On failure the store
    /// is unchanged.  The record's texts must be NUL-free: the store keeps a
    /// NUL verbatim but cannot read it back (see `has_no_nul`).
    pub fn upsert(&mut self, rec: &FileRecord) -> (r: Result<(), StoreError>)
        requires
            has_no_nul(rec.path@),
            has_no_nul(rec.digest@),
        ensures
            r is Ok ==> final(self).records() == old(self).records().insert(
                rec.path@,
                (rec.digest@, rec.modified_ns),
            ),
            r is Err ==> final(self).records() == old(self).records(),
    {
        self.upsert_raw(rec.path.as_str(), rec.digest.as_str(), rec.modified_ns)
    }

    /// The number of records the store holds.
    pub fn record_count(&self) -> (r: Result<u64, StoreError>)
        ensures
            r matches Ok(n) ==> self.records().dom().finite() && n == self.records().dom().len(),
    {
        self.count_raw()
    }
}

} // verus!
