//! The modals' form state: which modal is open, and each modal's fields.
//! The rendering itself belongs to the embedding application; the state is
//! kept here so its construction and resets are specified.

use crate::store::{feeds_of, FeedsRepository, Store};
use vstd::prelude::*;

verus! {

/// Which modal, if any, is open; the payload is the edited record's id.
#[derive(Debug, Clone, PartialEq)]
pub enum ActiveModal {
    Closed,
    AddFeed,
    CreateNote,
    AddBookmark,
    UpdateNote(i32),
    UpdateBookmark(i32),
    ViewNote(i32),
    LogModal,
    ManageFeeds,
    Settings,
}

/// Form state for subscribing to a feed.
#[derive(Debug)]
pub struct AddFeedModal {
    pub feed_title: String,
    pub url: String,
}

impl AddFeedModal {
    /// An empty subscription form.
    pub fn new() -> (r: Self)
        ensures
            r.feed_title@.len() == 0,
            r.url@.len() == 0,
    {
        AddFeedModal { feed_title: String::new(), url: String::new() }
    }
}

/// Form state for adding a bookmark.
#[derive(Debug)]
pub struct AddBookmarkModal {
    pub name: String,
    pub location: String,
}

impl AddBookmarkModal {
    /// An empty bookmark form.
    pub fn new() -> (r: Self)
        ensures
            r.name@.len() == 0,
            r.location@.len() == 0,
    {
        AddBookmarkModal { name: String::new(), location: String::new() }
    }
}

/// Form state for creating a note.
#[derive(Debug)]
pub struct CreateNoteModal {
    pub title: String,
    pub details: String,
}

impl CreateNoteModal {
    /// An empty note form.
    pub fn new() -> (r: Self)
        ensures
            r.title@.len() == 0,
            r.details@.len() == 0,
    {
        CreateNoteModal { title: String::new(), details: String::new() }
    }
}

/// The log viewer's state: its live search text.
#[derive(Debug)]
pub struct LogModal {
    pub search_query: String,
}

impl LogModal {
    /// A log viewer with no search in progress.
    pub fn new() -> (r: Self)
        ensures
            r.search_query@.len() == 0,
    {
        LogModal { search_query: String::new() }
    }
}

/// The feed manager's state: the subscribed feeds as (id, url, title),
/// loaded lazily.
#[derive(Debug)]
pub struct ManageFeedsModal {
    pub feeds: Vec<(i32, String, String)>,
    pub loaded: bool,
}

impl ManageFeedsModal {
    /// An empty, not-yet-loaded feed manager.
    pub fn new() -> (r: Self)
        ensures
            r.feeds@.len() == 0,
            !r.loaded,
    {
        ManageFeedsModal { feeds: Vec::new(), loaded: false }
    }

    /// Clears the loaded flag so the next render reloads the feed list.
    pub fn clear_for_reload(&mut self)
        ensures
            !final(self).loaded,
            final(self).feeds == old(self).feeds,
    {
        self.loaded = false;
    }

    /// Reloads the subscribed feeds from the store: afterwards the manager
    /// lists exactly the store's feeds; on failure it is left as it was.
    pub fn reload(&mut self, store: &Store) -> (r: Result<(), String>)
        ensures
            match r {
                Ok(()) => final(self).loaded && final(self).feeds@.len() == feeds_of(
                    *store,
                ).len() && forall|i: int|
                    0 <= i < final(self).feeds@.len() ==> (#[trigger] final(self).feeds@[i]).0
                        as int == feeds_of(*store)[i].id && final(self).feeds@[i].1@ == feeds_of(
                        *store,
                    )[i].url && final(self).feeds@[i].2@ == feeds_of(*store)[i].title,
                Err(_) => *final(self) == *old(self),
            },
    {
        match FeedsRepository::get_all(store) {
            Ok(feeds) => {
                self.feeds = feeds;
                self.loaded = true;
                Ok(())
            },
            Err(e) => Err(e),
        }
    }
}

/// The settings modal carries no state.
#[derive(Debug)]
pub struct SettingsModal;

/// Form state for editing a bookmark, loaded lazily by its id.
#[derive(Debug)]
pub struct UpdateBookmarkModal {
    pub bookmark_id: i32,
    pub name: String,
    pub location: String,
    pub loaded: bool,
}

impl UpdateBookmarkModal {
    /// An edit form for the bookmark with the given id, not yet loaded.
    pub fn new(bookmark_id: i32) -> (r: Self)
        ensures
            r.bookmark_id == bookmark_id,
            r.name@.len() == 0,
            r.location@.len() == 0,
            !r.loaded,
    {
        UpdateBookmarkModal {
            bookmark_id,
            name: String::new(),
            location: String::new(),
            loaded: false,
        }
    }
}

/// Form state for editing a note, loaded lazily by its id.
#[derive(Debug)]
pub struct UpdateNoteModal {
    pub note_id: i32,
    pub title: String,
    pub details: String,
    pub loaded: bool,
}

impl UpdateNoteModal {
    /// An edit form for the note with the given id, not yet loaded.
    pub fn new(note_id: i32) -> (r: Self)
        ensures
            r.note_id == note_id,
            r.title@.len() == 0,
            r.details@.len() == 0,
            !r.loaded,
    {
        UpdateNoteModal { note_id, title: String::new(), details: String::new(), loaded: false }
    }
}

/// State for the read-only note viewer, loaded lazily by its id.
#[derive(Debug)]
pub struct ViewNoteModal {
    pub note_id: i32,
    pub title: String,
    pub details: String,
    pub loaded: bool,
}

impl ViewNoteModal {
    /// A viewer for the note with the given id, not yet loaded.
    pub fn new(note_id: i32) -> (r: Self)
        ensures
            r.note_id == note_id,
            r.title@.len() == 0,
            r.details@.len() == 0,
            !r.loaded,
    {
        ViewNoteModal { note_id, title: String::new(), details: String::new(), loaded: false }
    }
}

} // verus!
