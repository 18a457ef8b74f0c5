use watchdrift::engine::{measure_and_store, EngineError};
use watchdrift::capture::CaptureResult;
use watchdrift::resolver::{ResolutionMode, ResolveError};
use watchdrift::store::{append_to, sync_to_persist, MeasurementRecord};
use watchdrift::timeref::ReferenceTimestamp;

fn record(timestamp: u32, diff: i32, sync: bool) -> MeasurementRecord {
    MeasurementRecord {
        timestamp,
        diff,
        sync,
        name: "main".to_string(),
        comment: String::new(),
    }
}

fn stored_row(conn: &rusqlite::Connection, ts: u32) -> (i32, bool, String, String) {
    conn.query_row(
        "SELECT diff, sync, name, comment FROM measurements WHERE ts = ?1",
        [ts],
        |row| {
            Ok((
                row.get::<_, i32>(0)?,
                row.get::<_, bool>(1)?,
                row.get::<_, String>(2)?,
                row.get::<_, String>(3)?,
            ))
        },
    )
    .unwrap()
}

#[test]
fn bootstrap_record_is_forced_to_sync() {
    let conn = rusqlite::Connection::open_in_memory().unwrap();
    let persisted = append_to(&conn, &record(1000, 7, false)).unwrap();
    assert!(persisted);
    let (diff, sync, name, comment) = stored_row(&conn, 1000);
    assert_eq!(diff, 7);
    assert!(sync);
    assert_eq!(name, "main");
    assert_eq!(comment, "");
}

#[test]
fn later_records_keep_the_requested_flag() {
    let conn = rusqlite::Connection::open_in_memory().unwrap();
    assert!(append_to(&conn, &record(1, 0, false)).unwrap());
    assert!(!append_to(&conn, &record(2, 3, false)).unwrap());
    assert!(append_to(&conn, &record(3, -2, true)).unwrap());
    assert!(!stored_row(&conn, 2).1);
    assert!(stored_row(&conn, 3).1);
}

#[test]
fn schema_creation_is_idempotent() {
    let conn = rusqlite::Connection::open_in_memory().unwrap();
    append_to(&conn, &record(10, 1, true)).unwrap();
    // The second append runs CREATE TABLE IF NOT EXISTS again against the
    // existing table and must not error on that account.
    append_to(&conn, &record(20, 2, true)).unwrap();
    let n: i64 = conn
        .query_row("SELECT count(*) FROM measurements", [], |row| row.get(0))
        .unwrap();
    assert_eq!(n, 2);
}

#[test]
fn duplicate_timestamp_is_a_storage_error() {
    let conn = rusqlite::Connection::open_in_memory().unwrap();
    append_to(&conn, &record(555, 4, true)).unwrap();
    let clash = append_to(&conn, &record(555, 9, true));
    let err = clash.unwrap_err();
    assert!(!err.message.is_empty());
    // The first row is untouched.
    assert_eq!(stored_row(&conn, 555).0, 4);
    let n: i64 = conn
        .query_row("SELECT count(*) FROM measurements", [], |row| row.get(0))
        .unwrap();
    assert_eq!(n, 1);
}

#[test]
fn sync_flag_decision_values() {
    assert!(sync_to_persist(false, 0));
    assert!(sync_to_persist(true, 0));
    assert!(sync_to_persist(true, 5));
    assert!(!sync_to_persist(false, 5));
}

#[test]
fn end_to_end_automatic_at_a_minute_boundary() {
    // A fresh in-memory store for a full cycle: the reference second is on a
    // minute boundary, a 250 ms reaction leaves the instant in that second,
    // so the drift is zero and the bootstrap rule forces the sync flag.
    let reference = ReferenceTimestamp {
        seconds: 960,
        subsecond_fraction: 0,
    };
    let capture = CaptureResult {
        elapsed_ms: 250,
        triggered: true,
    };
    let (resolved, persisted) = measure_and_store(
        ":memory:",
        &reference,
        &capture,
        &ResolutionMode::Automatic,
        &"main".to_string(),
        &String::new(),
        false,
    )
    .unwrap();
    assert_eq!(resolved.true_second, 960);
    assert_eq!(resolved.final_offset_seconds, 0);
    assert!(persisted);
}

#[test]
fn untriggered_cycle_writes_nothing() {
    let reference = ReferenceTimestamp {
        seconds: 960,
        subsecond_fraction: 0,
    };
    let capture = CaptureResult {
        elapsed_ms: 0,
        triggered: false,
    };
    let outcome = measure_and_store(
        ":memory:",
        &reference,
        &capture,
        &ResolutionMode::Automatic,
        &"main".to_string(),
        &String::new(),
        true,
    );
    assert!(matches!(
        outcome,
        Err(EngineError::Resolution(ResolveError::NotTriggered))
    ));
}

#[test]
fn unreachable_store_path_is_a_storage_error() {
    let reference = ReferenceTimestamp {
        seconds: 960,
        subsecond_fraction: 0,
    };
    let capture = CaptureResult {
        elapsed_ms: 0,
        triggered: true,
    };
    let outcome = measure_and_store(
        "no_such_directory/watch.sqlite",
        &reference,
        &capture,
        &ResolutionMode::Automatic,
        &"main".to_string(),
        &String::new(),
        true,
    );
    assert!(matches!(outcome, Err(EngineError::Storage(_))));
}
