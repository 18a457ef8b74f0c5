//! The measurement store: an append-mostly set of drift samples kept in a
//! SQLite database, one row per measurement, keyed by timestamp. The store
//! creates its schema lazily and forces the first record of a store to be a
//! trusted sync sample.

use vstd::prelude::*;

verus! {

#[verifier::external_type_specification]
#[verifier::external_body]
pub struct ExConnection(rusqlite::Connection);

#[verifier::external_type_specification]
#[verifier::external_body]
pub struct ExSqliteError(rusqlite::Error);

/// One drift sample as persisted: the capture timestamp (the unique key),
/// the signed drift in seconds (positive means the watch runs fast), the
/// sync flag, the watch identifier, and an optional comment.
#[derive(Debug)]
pub struct MeasurementRecord {
    pub timestamp: u32,
    pub diff: i32,
    pub sync: bool,
    pub name: String,
    pub comment: String,
}

/// A failure of the store: opening, schema creation, counting or inserting
/// went wrong; the message carries the underlying engine's words.
#[derive(Debug)]
pub struct StorageError {
    pub message: String,
}

/// Relies on rusqlite::Connection::open: opens the database at the path,
/// creating the file where none exists.
#[verifier::external_body]
fn open_connection(path: &str) -> Result<rusqlite::Connection, rusqlite::Error> {
    rusqlite::Connection::open(path)
}

/// Relies on rusqlite::Connection::execute with CREATE TABLE IF NOT EXISTS:
/// creates the measurements table only where it is absent, and is harmless
/// where it already exists.
#[verifier::external_body]
fn create_schema(conn: &rusqlite::Connection) -> Result<usize, rusqlite::Error> {
    conn.execute(
        "CREATE TABLE IF NOT EXISTS measurements (
            ts   INTEGER PRIMARY KEY,
            diff INTEGER NOT NULL,
            sync BOOLEAN,
            name TEXT NOT NULL,
            comment TEXT NULL
        );",
        (),
    )
}

/// Relies on rusqlite::Connection::query_row and Row::get: returns the
/// single value of the counting query, the number of stored measurements,
/// which SQL counting never reports as negative.
#[verifier::external_body]
fn count_measurements(conn: &rusqlite::Connection) -> (r: Result<i64, rusqlite::Error>)
    ensures
        r matches Ok(n) ==> n >= 0,
{
    conn.query_row("SELECT count(*) FROM measurements;", [], |row| row.get(0))
}

/// Relies on rusqlite::Connection::execute with INSERT: adds one row keyed
/// by the timestamp; SQLite fails the call on a duplicate key. On success,
/// execute reports the number of rows changed, one for a single-row insert.
#[verifier::external_body]
fn insert_measurement(
    conn: &rusqlite::Connection,
    ts: u32,
    diff: i32,
    sync: bool,
    name: &str,
    comment: &str,
) -> (r: Result<usize, rusqlite::Error>)
    ensures
        r matches Ok(n) ==> n == 1,
{
    conn.execute(
        "INSERT INTO measurements(ts, diff, sync, name, comment) VALUES(?1,?2,?3,?4,?5)",
        (ts, diff, sync, name, comment),
    )
}

/// Relies on the Display impl of rusqlite::Error: a human-readable message.
#[verifier::external_body]
fn sqlite_error_text(e: &rusqlite::Error) -> String {
    e.to_string()
}

fn storage_error(e: rusqlite::Error) -> StorageError {
    StorageError { message: sqlite_error_text(&e) }
}

/// The sync flag a store persists: the caller's request, except that the
/// first record of a store is always a sync sample.
pub open spec fn persisted_sync(requested: bool, existing: int) -> bool {
    requested || existing == 0
}

/// The sync flag to persist, given the caller's request and how many records
/// the store already holds: the request, forced to true for the first record
/// of a store (the bootstrap baseline).
pub fn sync_to_persist(requested: bool, existing: u64) -> (r: bool)
    ensures
        r == persisted_sync(requested, existing as int),
        existing == 0 ==> r,
        requested ==> r,
{
    requested || existing == 0
}

/// Appends one record to an already opened store: ensures the schema,
/// counts the existing records, forces the bootstrap sync flag where the
/// store is empty, and inserts. Returns the sync flag actually persisted;
/// a requested sync flag is never dropped.
pub fn append_to(conn: &rusqlite::Connection, record: &MeasurementRecord) -> (r: Result<
    bool,
    StorageError,
>)
    ensures
        r matches Ok(persisted) ==> (record.sync ==> persisted),
{
    match create_schema(conn) {
        Ok(_) => (),
        Err(e) => {
            return Err(storage_error(e));
        },
    }
    let existing: i64 = match count_measurements(conn) {
        Ok(n) => n,
        Err(e) => {
            return Err(storage_error(e));
        },
    };
    let persisted: bool = sync_to_persist(record.sync, existing as u64);
    match insert_measurement(
        conn,
        record.timestamp,
        record.diff,
        persisted,
        record.name.as_str(),
        record.comment.as_str(),
    ) {
        Ok(_) => Ok(persisted),
        Err(e) => Err(storage_error(e)),
    }
}

/// Appends one record to the store at `path`, opening it (and creating it
/// if absent) first. Returns the sync flag actually persisted; a requested
/// sync flag is never dropped.
pub fn append(path: &str, record: &MeasurementRecord) -> (r: Result<bool, StorageError>)
    ensures
        r matches Ok(persisted) ==> (record.sync ==> persisted),
{
    let conn: rusqlite::Connection = match open_connection(path) {
        Ok(c) => c,
        Err(e) => {
            return Err(storage_error(e));
        },
    };
    append_to(&conn, record)
}

} // verus!
