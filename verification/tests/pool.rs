//! The bounded connection pool: acquisition beyond the ceiling fails
//! cleanly and the store stays usable.

use dry_dock::log_service::add_log_entry;
use dry_dock::store::{get_connection, initialize_database_with, Store};

fn fresh_store(name: &str, max_handles: u32, timeout_ms: u64) -> Store {
    let nanos = std::time::SystemTime::now()
        .duration_since(std::time::UNIX_EPOCH)
        .unwrap()
        .as_nanos();
    let path = format!("/tmp/dry_dock_{}_{}.db", name, nanos);
    initialize_database_with(&path, max_handles, timeout_ms).unwrap()
}

#[test]
fn acquisition_beyond_the_ceiling_fails_rather_than_corrupting() {
    let mut store = fresh_store("pool_ceiling", 2, 250);
    let first = get_connection(&store).unwrap();
    let second = get_connection(&store).unwrap();
    // The pool is exhausted: a third lease times out and errs.
    let third = get_connection(&store);
    assert!(third.is_err());
    // Releasing one handle makes acquisition succeed again.
    drop(first);
    let again = get_connection(&store);
    assert!(again.is_ok());
    drop(again);
    drop(second);
    // The store is intact and serves ordinary operations.
    add_log_entry(&mut store, "Info", "pool exercised");
}

#[test]
fn initialization_is_idempotent_on_an_existing_store() {
    let nanos = std::time::SystemTime::now()
        .duration_since(std::time::UNIX_EPOCH)
        .unwrap()
        .as_nanos();
    let path = format!("/tmp/dry_dock_reopen_{}.db", nanos);
    {
        let mut store = initialize_database_with(&path, 2, 500).unwrap();
        add_log_entry(&mut store, "Info", "first open");
    }
    // Opening the same file again re-runs the migration harmlessly.
    let store = initialize_database_with(&path, 2, 500).unwrap();
    let logs = dry_dock::log_service::get_all_logs(&store);
    assert_eq!(logs.len(), 1);
}
