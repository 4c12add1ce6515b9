//! Logs repository: append-only records of what the background services
//! did, with a bounded most-recent-first read.

use crate::clock::{format_timestamp_or_unknown, now_timestamp};
use crate::store::{feeds_of, items_of, Store};
use crate::text::str_eq;
use vstd::prelude::*;

verus! {

/// Logs repository: append log rows and read the most recent ones.
pub struct LogsRepository;

/// The stored form of a requested log level: the three known names map to
/// their upper-case forms, anything else is recorded as INFO.
pub open spec fn spec_level(level: Seq<char>) -> Seq<char> {
    if level == "Info"@ {
        "INFO"@
    } else if level == "Warning"@ {
        "WARNING"@
    } else if level == "Error"@ {
        "ERROR"@
    } else {
        "INFO"@
    }
}

/// Inserts a log row. Relies on rusqlite::Connection::execute with
/// "INSERT INTO logs ..."; only the logs table changes.
#[verifier::external_body]
fn log_insert(store: &mut Store, level: &str, message: &str, timestamp: i64) -> (r: Result<
    (),
    String,
>)
    ensures
        feeds_of(*final(store)) == feeds_of(*old(store)),
        items_of(*final(store)) == items_of(*old(store)),
{
    let conn = store.pool.get().map_err(|e| format!("Failed to get connection from pool: {}", e))?;
    conn.execute(
        "INSERT INTO logs (level, message, timestamp) VALUES (?1, ?2, ?3)",
        (level, message, timestamp),
    ).map_err(|e| format!("Failed to create log entry: {}", e))?;
    Ok(())
}

/// The most recent 1000 log rows as (id, level, message, timestamp).
/// Relies on rusqlite prepare / query_map with "SELECT ... FROM logs ORDER
/// BY timestamp DESC LIMIT 1000".
#[verifier::external_body]
fn logs_raw(store: &Store) -> (r: Result<Vec<(i32, String, String, i64)>, String>) {
    let conn = store.pool.get().map_err(|e| format!("Failed to get connection from pool: {}", e))?;
    let mut stmt = conn.prepare(
        "SELECT id, level, message, timestamp FROM logs ORDER BY timestamp DESC LIMIT 1000",
    ).map_err(|e| format!("Failed to prepare statement: {}", e))?;
    let logs = stmt.query_map([], |row| {
        Ok((row.get(0)?, row.get(1)?, row.get(2)?, row.get(3)?))
    }).map_err(|e| format!("Failed to query logs: {}", e))?.collect::<Result<Vec<_>, _>>().map_err(
        |e| format!("Failed to collect logs: {}", e),
    )?;
    Ok(logs)
}

impl LogsRepository {
    /// Appends a log entry stamped with the current time; the level is
    /// normalized to one of INFO, WARNING, ERROR.
    pub fn create(store: &mut Store, level: &str, message: &str) -> (r: Result<(), String>)
        ensures
            feeds_of(*final(store)) == feeds_of(*old(store)),
            items_of(*final(store)) == items_of(*old(store)),
    {
        let stored_level: &str = if str_eq(level, "Info") {
            "INFO"
        } else if str_eq(level, "Warning") {
            "WARNING"
        } else if str_eq(level, "Error") {
            "ERROR"
        } else {
            "INFO"
        };
        proof {
            assert(stored_level@ == spec_level(level@));
        }
        let now = now_timestamp();
        log_insert(store, stored_level, message, now)
    }

    /// The most recent 1000 log entries as (id, level, message, time), the
    /// timestamp rendered for display.
    pub fn get_all(store: &Store) -> (r: Result<Vec<(i32, String, String, String)>, String>) {
        let raw = match logs_raw(store) {
            Ok(v) => v,
            Err(e) => {
                return Err(e);
            },
        };
        let mut out: Vec<(i32, String, String, String)> = Vec::new();
        let mut i: usize = 0;
        while i < raw.len()
            invariant
                i <= raw@.len(),
            decreases raw@.len() - i,
        {
            let row = &raw[i];
            let rendered = format_timestamp_or_unknown(row.3);
            out.push((row.0, row.1.clone(), row.2.clone(), rendered));
            i = i + 1;
        }
        Ok(out)
    }
}

} // verus!
