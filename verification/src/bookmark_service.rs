//! Bookmark service: the business layer for storing, retrieving and
//! managing bookmarks — named URLs or file paths.

use crate::bookmarks_repository::BookmarksRepository;
use crate::clock::now_timestamp;
use crate::store::{feeds_of, items_of, Store};
use vstd::prelude::*;

verus! {

/// Stores a new bookmark, stamped with the current time.
pub fn add_new_bookmark(store: &mut Store, name: &str, path: &str) -> (r: Result<(), String>)
    ensures
        feeds_of(*final(store)) == feeds_of(*old(store)),
        items_of(*final(store)) == items_of(*old(store)),
{
    let now = now_timestamp();
    BookmarksRepository::create(store, name, path, now)
}

/// Deletes a bookmark by id.
pub fn delete_bookmark(store: &mut Store, id: i32) -> (r: Result<(), String>)
    ensures
        feeds_of(*final(store)) == feeds_of(*old(store)),
        items_of(*final(store)) == items_of(*old(store)),
{
    BookmarksRepository::delete(store, id)
}

/// Rewrites a bookmark's name and path.
pub fn edit_bookmark(store: &mut Store, id: i32, name: &str, path: &str) -> (r: Result<(), String>)
    ensures
        feeds_of(*final(store)) == feeds_of(*old(store)),
        items_of(*final(store)) == items_of(*old(store)),
{
    BookmarksRepository::update(store, id, name, path)
}

/// The bookmark with the given id, as (id, name, path, created_at).
pub fn fetch_bookmark(store: &Store, id: i32) -> (r: Result<(i32, String, String, String), String>)
    ensures
        r matches Ok(t) ==> t.0 == id,
{
    BookmarksRepository::get_by_id(store, id)
}

/// All bookmarks as (id, name, path, created_at), ordered by name.
pub fn fetch_all_bookmarks(store: &Store) -> Result<Vec<(i32, String, String, String)>, String> {
    BookmarksRepository::get_all(store)
}

} // verus!
