//! Notes repository: typed access to the notes table. Each operation
//! leaves the feed and feed-item models of the store untouched.

use crate::store::{feeds_of, items_of, Store};
use vstd::prelude::*;

verus! {

/// Notes repository: create, read, update and delete note rows.
pub struct NotesRepository;

impl NotesRepository {
    /// Adds a note. Relies on rusqlite::Connection::execute with
    /// "INSERT INTO notes ..."; only the notes table changes.
    #[verifier::external_body]
    pub fn create(store: &mut Store, title: &str, details: &str, created_at: i64) -> (r: Result<
        (),
        String,
    >)
        ensures
            feeds_of(*final(store)) == feeds_of(*old(store)),
            items_of(*final(store)) == items_of(*old(store)),
    {
        let conn = store.pool.get().map_err(|e| format!("Failed to get connection from pool: {}", e))?;
        conn.execute(
            "INSERT INTO notes (title, details, created_at) VALUES (?1, ?2, ?3)",
            (title, details, created_at),
        ).map_err(|e| format!("Failed to create note: {}", e))?;
        Ok(())
    }

    /// Deletes a note by id. Relies on rusqlite::Connection::execute with
    /// "DELETE FROM notes WHERE id = ?"; only the notes table changes.
    #[verifier::external_body]
    pub fn delete(store: &mut Store, note_id: i32) -> (r: Result<(), String>)
        ensures
            feeds_of(*final(store)) == feeds_of(*old(store)),
            items_of(*final(store)) == items_of(*old(store)),
    {
        let conn = store.pool.get().map_err(|e| format!("Failed to get connection from pool: {}", e))?;
        conn.execute("DELETE FROM notes WHERE id = ?1", (note_id,)).map_err(
            |e| format!("Failed to delete note: {}", e),
        )?;
        Ok(())
    }

    /// All notes as (id, title, details, created_at, updated_at), most
    /// recently created first. Relies on rusqlite prepare / query_map with
    /// "SELECT ... FROM notes ORDER BY created_at DESC".
    #[verifier::external_body]
    pub fn get_all(store: &Store) -> (r: Result<
        Vec<(i32, String, String, i64, Option<i64>)>,
        String,
    >) {
        let conn = store.pool.get().map_err(|e| format!("Failed to get connection from pool: {}", e))?;
        let mut stmt = conn.prepare(
            "SELECT id, title, details, created_at, updated_at FROM notes ORDER BY created_at DESC",
        ).map_err(|e| format!("Failed to prepare statement: {}", e))?;
        let notes = stmt.query_map([], |row| {
            Ok((row.get(0)?, row.get(1)?, row.get(2)?, row.get(3)?, row.get(4)?))
        }).map_err(|e| format!("Failed to query notes: {}", e))?.collect::<Result<
            Vec<_>,
            _,
        >>().map_err(|e| format!("Failed to collect notes: {}", e))?;
        Ok(notes)
    }

    /// The note with the given id. Relies on rusqlite query_row with
    /// "SELECT ... FROM notes WHERE id = ?": a returned row carries the
    /// requested id.
    #[verifier::external_body]
    pub fn get_by_id(store: &Store, note_id: i32) -> (r: Result<
        (i32, String, String, i64, Option<i64>),
        String,
    >)
        ensures
            r matches Ok(t) ==> t.0 == note_id,
    {
        let conn = store.pool.get().map_err(|e| format!("Failed to get connection from pool: {}", e))?;
        let mut stmt = conn.prepare(
            "SELECT id, title, details, created_at, updated_at FROM notes WHERE id = ?1",
        ).map_err(|e| format!("Failed to prepare statement: {}", e))?;
        let note = stmt.query_row((note_id,), |row| {
            Ok((row.get(0)?, row.get(1)?, row.get(2)?, row.get(3)?, row.get(4)?))
        }).map_err(|e| format!("Failed to get note: {}", e))?;
        Ok(note)
    }

    /// Rewrites a note's title and details and stamps it updated. Relies on
    /// rusqlite::Connection::execute with "UPDATE notes SET ... WHERE id = ?";
    /// only the notes table changes.
    #[verifier::external_body]
    pub fn update(
        store: &mut Store,
        note_id: i32,
        title: &str,
        details: &str,
        updated_at: i64,
    ) -> (r: Result<(), String>)
        ensures
            feeds_of(*final(store)) == feeds_of(*old(store)),
            items_of(*final(store)) == items_of(*old(store)),
    {
        let conn = store.pool.get().map_err(|e| format!("Failed to get connection from pool: {}", e))?;
        conn.execute(
            "UPDATE notes SET title = ?1, details = ?2, updated_at = ?3 WHERE id = ?4",
            (title, details, updated_at, note_id),
        ).map_err(|e| format!("Failed to update note: {}", e))?;
        Ok(())
    }
}

} // verus!
