//! Bookmarks repository: typed access to the bookmarks table. Each
//! operation leaves the feed and feed-item models of the store untouched;
//! creation timestamps are rendered for display by the verified layer.

use crate::clock::format_timestamp_or_unknown;
use crate::store::{feeds_of, items_of, Store};
use vstd::prelude::*;

verus! {

/// Bookmarks repository: create, read, update and delete bookmark rows.
pub struct BookmarksRepository;

/// Inserts a bookmark. Relies on rusqlite::Connection::execute with
/// "INSERT INTO bookmarks ..."; only the bookmarks table changes.
#[verifier::external_body]
fn bookmark_insert(store: &mut Store, name: &str, location: &str, created_at: i64) -> (r: Result<
    (),
    String,
>)
    ensures
        feeds_of(*final(store)) == feeds_of(*old(store)),
        items_of(*final(store)) == items_of(*old(store)),
{
    let conn = store.pool.get().map_err(|e| format!("Failed to get connection from pool: {}", e))?;
    conn.execute(
        "INSERT INTO bookmarks (name, location, created_at) VALUES (?1, ?2, ?3)",
        (name, location, created_at),
    ).map_err(|e| format!("Failed to add bookmark: {}", e))?;
    Ok(())
}

/// All bookmarks as (id, name, location, created_at), ordered by name.
/// Relies on rusqlite prepare / query_map with "SELECT ... FROM bookmarks
/// ORDER BY name ASC".
#[verifier::external_body]
fn bookmark_list(store: &Store) -> (r: Result<Vec<(i32, String, String, i64)>, String>) {
    let conn = store.pool.get().map_err(|e| format!("Failed to get connection from pool: {}", e))?;
    let mut stmt = conn.prepare(
        "SELECT id, name, location, created_at FROM bookmarks ORDER BY name ASC",
    ).map_err(|e| format!("Failed to prepare statement: {}", e))?;
    let bookmarks = stmt.query_map([], |row| {
        Ok((row.get(0)?, row.get(1)?, row.get(2)?, row.get(3)?))
    }).map_err(|e| format!("Failed to query bookmarks: {}", e))?.collect::<Result<
        Vec<_>,
        _,
    >>().map_err(|e| format!("Failed to collect bookmarks: {}", e))?;
    Ok(bookmarks)
}

/// The bookmark with the given id. Relies on rusqlite query_row with
/// "SELECT ... FROM bookmarks WHERE id = ?": a returned row carries the
/// requested id.
#[verifier::external_body]
fn bookmark_get(store: &Store, bookmark_id: i32) -> (r: Result<(i32, String, String, i64), String>)
    ensures
        r matches Ok(t) ==> t.0 == bookmark_id,
{
    let conn = store.pool.get().map_err(|e| format!("Failed to get connection from pool: {}", e))?;
    let mut stmt = conn.prepare(
        "SELECT id, name, location, created_at FROM bookmarks WHERE id = ?1",
    ).map_err(|e| format!("Failed to prepare statement: {}", e))?;
    let bookmark = stmt.query_row((bookmark_id,), |row| {
        Ok((row.get(0)?, row.get(1)?, row.get(2)?, row.get(3)?))
    }).map_err(|e| format!("Failed to get bookmark: {}", e))?;
    Ok(bookmark)
}

/// Rewrites a bookmark's name and location. Relies on
/// rusqlite::Connection::execute with "UPDATE bookmarks SET ... WHERE id = ?";
/// only the bookmarks table changes.
#[verifier::external_body]
fn bookmark_update(store: &mut Store, bookmark_id: i32, name: &str, location: &str) -> (r: Result<
    (),
    String,
>)
    ensures
        feeds_of(*final(store)) == feeds_of(*old(store)),
        items_of(*final(store)) == items_of(*old(store)),
{
    let conn = store.pool.get().map_err(|e| format!("Failed to get connection from pool: {}", e))?;
    conn.execute(
        "UPDATE bookmarks SET name = ?1, location = ?2 WHERE id = ?3",
        (name, location, bookmark_id),
    ).map_err(|e| format!("Failed to update bookmark: {}", e))?;
    Ok(())
}

/// Deletes a bookmark by id. Relies on rusqlite::Connection::execute with
/// "DELETE FROM bookmarks WHERE id = ?"; only the bookmarks table changes.
#[verifier::external_body]
fn bookmark_delete(store: &mut Store, bookmark_id: i32) -> (r: Result<(), String>)
    ensures
        feeds_of(*final(store)) == feeds_of(*old(store)),
        items_of(*final(store)) == items_of(*old(store)),
{
    let conn = store.pool.get().map_err(|e| format!("Failed to get connection from pool: {}", e))?;
    conn.execute("DELETE FROM bookmarks WHERE id = ?1", (bookmark_id,)).map_err(
        |e| format!("Failed to remove bookmark: {}", e),
    )?;
    Ok(())
}

impl BookmarksRepository {
    /// Adds a bookmark, stamped with the given creation time.
    pub fn create(store: &mut Store, name: &str, location: &str, created_at: i64) -> (r: Result<
        (),
        String,
    >)
        ensures
            feeds_of(*final(store)) == feeds_of(*old(store)),
            items_of(*final(store)) == items_of(*old(store)),
    {
        bookmark_insert(store, name, location, created_at)
    }

    /// All bookmarks as (id, name, location, created_at), the creation time
    /// rendered for display.
    pub fn get_all(store: &Store) -> (r: Result<Vec<(i32, String, String, String)>, String>) {
        let raw = match bookmark_list(store) {
            Ok(v) => v,
            Err(e) => {
                return Err(e);
            },
        };
        let mut out: Vec<(i32, String, String, String)> = Vec::new();
        let mut i: usize = 0;
        while i < raw.len()
            invariant
                i <= raw@.len(),
            decreases raw@.len() - i,
        {
            let row = &raw[i];
            let rendered = format_timestamp_or_unknown(row.3);
            out.push((row.0, row.1.clone(), row.2.clone(), rendered));
            i = i + 1;
        }
        Ok(out)
    }

    /// The bookmark with the given id, its creation time rendered.
    pub fn get_by_id(store: &Store, bookmark_id: i32) -> (r: Result<
        (i32, String, String, String),
        String,
    >)
        ensures
            r matches Ok(t) ==> t.0 == bookmark_id,
    {
        match bookmark_get(store, bookmark_id) {
            Ok(row) => Ok((row.0, row.1, row.2, format_timestamp_or_unknown(row.3))),
            Err(e) => Err(e),
        }
    }

    /// Rewrites a bookmark's name and location.
    pub fn update(store: &mut Store, bookmark_id: i32, name: &str, location: &str) -> (r: Result<
        (),
        String,
    >)
        ensures
            feeds_of(*final(store)) == feeds_of(*old(store)),
            items_of(*final(store)) == items_of(*old(store)),
    {
        bookmark_update(store, bookmark_id, name, location)
    }

    /// Deletes a bookmark.
    pub fn delete(store: &mut Store, bookmark_id: i32) -> (r: Result<(), String>)
        ensures
            feeds_of(*final(store)) == feeds_of(*old(store)),
            items_of(*final(store)) == items_of(*old(store)),
    {
        bookmark_delete(store, bookmark_id)
    }
}

} // verus!
