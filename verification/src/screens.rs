//! The screens' cached view state: each screen holds its last-loaded rows
//! and a `loaded` flag — the per-screen face of the staleness protocol.
//! Clearing the flag forces a reload from the repositories before the next
//! render; the rendering itself belongs to the embedding application.

use crate::bookmark_service::fetch_all_bookmarks;
use crate::models::{Bookmark, ChatMessage, FeedItem, Note};
use crate::note_service::NoteService;
use crate::store::{items_of, FeedItemsRepository, ItemRow, Store};
use vstd::prelude::*;

verus! {

/// A cached feed item reflects some row of the store.
pub open spec fn item_in_store(store_items: Seq<ItemRow>, item: FeedItem) -> bool {
    exists|j: int|
        0 <= j < store_items.len() && (#[trigger] store_items[j]).title == item.title@
            && store_items[j].link == item.link@ && store_items[j].pub_date == item.pub_date as int
}

/// The rows a freshly loaded feeds screen may hold: each cached item is a
/// row of the store, and the cache is ordered newest publication first.
pub open spec fn feeds_cache_from(items: Seq<FeedItem>, store_items: Seq<ItemRow>) -> bool {
    &&& forall|i: int| 0 <= i < items.len() ==> item_in_store(store_items, #[trigger] items[i])
    &&& forall|i: int, k: int|
        0 <= i < k < items.len() ==> (#[trigger] items[i]).pub_date >= (#[trigger] items[k]).pub_date
}

/// The feeds screen: the most recent feed items, loaded lazily.
#[derive(Debug)]
pub struct FeedsScreen {
    pub feed_items: Vec<FeedItem>,
    pub loaded: bool,
}

impl FeedsScreen {
    /// An empty, not-yet-loaded feeds screen.
    pub fn new() -> (r: Self)
        ensures
            r.feed_items@.len() == 0,
            !r.loaded,
    {
        FeedsScreen { feed_items: Vec::new(), loaded: false }
    }

    /// The screen's heading.
    pub fn title(&self) -> (r: &str)
        ensures
            r@ == "RSS Feed Items"@,
    {
        "RSS Feed Items"
    }

    /// Clears the loaded flag so the next render reloads from the store;
    /// the cached rows are kept until then.
    pub fn clear_for_reload(&mut self)
        ensures
            !final(self).loaded,
            final(self).feed_items == old(self).feed_items,
    {
        self.loaded = false;
    }

    /// Reloads the cache from the store: afterwards the screen is loaded
    /// with rows of the store, newest publication first; on failure the
    /// screen is left as it was.
    pub fn reload(&mut self, store: &Store) -> (r: Result<(), String>)
        ensures
            match r {
                Ok(()) => final(self).loaded && feeds_cache_from(
                    final(self).feed_items@,
                    items_of(*store),
                ),
                Err(_) => *final(self) == *old(self),
            },
    {
        let rows = match FeedItemsRepository::get_latest(store, 10000) {
            Ok(rows) => rows,
            Err(e) => {
                return Err(e);
            },
        };
        let mut items: Vec<FeedItem> = Vec::new();
        let mut i: usize = 0;
        while i < rows.len()
            invariant
                i <= rows@.len(),
                items@.len() == i,
                forall|j: int|
                    0 <= j < i ==> (#[trigger] items@[j]).title@ == rows@[j].1@ && items@[j].link@
                        == rows@[j].2@ && items@[j].description@ == rows@[j].3@
                        && items@[j].pub_date == rows@[j].4,
            decreases rows@.len() - i,
        {
            let row = &rows[i];
            items.push(FeedItem::new(row.0, row.1.clone(), row.2.clone(), row.3.clone(), row.4));
            i = i + 1;
        }
        self.feed_items = items;
        self.loaded = true;
        proof {
            let loaded_items = self.feed_items@;
            assert forall|i: int|
                0 <= i < loaded_items.len() implies item_in_store(
                items_of(*store),
                #[trigger] loaded_items[i],
            ) by {
                assert(loaded_items[i].title@ == rows@[i].1@);
                let j0 = choose|j: int|
                    0 <= j < items_of(*store).len() && (#[trigger] items_of(*store)[j]).title == (
                    #[trigger] rows@[i]).1@ && items_of(*store)[j].link == rows@[i].2@ && items_of(
                        *store,
                    )[j].description == rows@[i].3@ && items_of(*store)[j].pub_date == rows@[i].4
                        as int;
                assert(items_of(*store)[j0].title == loaded_items[i].title@);
                assert(items_of(*store)[j0].link == loaded_items[i].link@);
                assert(items_of(*store)[j0].pub_date == loaded_items[i].pub_date as int);
            }
            assert forall|i: int, k: int|
                0 <= i < k < loaded_items.len() implies (#[trigger] loaded_items[i]).pub_date >= (
            #[trigger] loaded_items[k]).pub_date by {
                assert((#[trigger] rows@[i]).4 >= (#[trigger] rows@[k]).4);
            }
            assert(feeds_cache_from(self.feed_items@, items_of(*store)));
        }
        Ok(())
    }
}

/// The notes screen: the loaded notes and the live search text.
#[derive(Debug)]
pub struct NotesScreen {
    pub notes: Vec<Note>,
    pub search_query: String,
}

impl NotesScreen {
    /// An empty notes screen with no search in progress.
    pub fn new() -> (r: Self)
        ensures
            r.notes@.len() == 0,
            r.search_query@.len() == 0,
    {
        NotesScreen { notes: Vec::new(), search_query: String::new() }
    }

    /// The screen's heading.
    pub fn title(&self) -> (r: &str)
        ensures
            r@ == "Notes"@,
    {
        "Notes"
    }

    /// Reloads every note and clears the live search; on failure the screen
    /// is left as it was.
    pub fn refresh(&mut self, store: &Store) -> (r: Result<(), String>)
        ensures
            match r {
                Ok(()) => final(self).search_query@.len() == 0,
                Err(_) => *final(self) == *old(self),
            },
    {
        let notes = match NoteService::get_all_notes(store) {
            Ok(notes) => notes,
            Err(e) => {
                return Err(e);
            },
        };
        self.notes = notes;
        self.search_query = String::new();
        Ok(())
    }
}

/// The bookmarks screen: the loaded bookmarks, loaded lazily.
#[derive(Debug)]
pub struct BookmarksScreen {
    pub bookmarks: Vec<Bookmark>,
    pub loaded: bool,
}

impl BookmarksScreen {
    /// An empty, not-yet-loaded bookmarks screen.
    pub fn new() -> (r: Self)
        ensures
            r.bookmarks@.len() == 0,
            !r.loaded,
    {
        BookmarksScreen { bookmarks: Vec::new(), loaded: false }
    }

    /// The screen's heading.
    pub fn title(&self) -> (r: &str)
        ensures
            r@ == "Bookmarks Manager"@,
    {
        "Bookmarks Manager"
    }

    /// Clears the loaded flag so the next render reloads from the store;
    /// the cached rows are kept until then.
    pub fn clear_for_reload(&mut self)
        ensures
            !final(self).loaded,
            final(self).bookmarks == old(self).bookmarks,
    {
        self.loaded = false;
    }

    /// Reloads the cache from the store; on failure the screen is left as
    /// it was.
    pub fn reload(&mut self, store: &Store) -> (r: Result<(), String>)
        ensures
            match r {
                Ok(()) => final(self).loaded,
                Err(_) => *final(self) == *old(self),
            },
    {
        let rows = match fetch_all_bookmarks(store) {
            Ok(rows) => rows,
            Err(e) => {
                return Err(e);
            },
        };
        let mut bookmarks: Vec<Bookmark> = Vec::new();
        let mut i: usize = 0;
        while i < rows.len()
            invariant
                i <= rows@.len(),
            decreases rows@.len() - i,
        {
            let row = &rows[i];
            bookmarks.push(Bookmark::new(row.0, row.1.clone(), row.2.clone(), row.3.clone()));
            i = i + 1;
        }
        self.bookmarks = bookmarks;
        self.loaded = true;
        Ok(())
    }
}

/// The assistant screen: the running conversation and its input state.
#[derive(Debug)]
pub struct AssistantScreen {
    pub messages: Vec<ChatMessage>,
    pub input_text: String,
    pub is_loading: bool,
    pub server_status_checked: bool,
    pub server_available: bool,
}

impl AssistantScreen {
    /// A fresh conversation with the assistant server not yet probed.
    pub fn new() -> (r: Self)
        ensures
            r.messages@.len() == 0,
            r.input_text@.len() == 0,
            !r.is_loading,
            !r.server_status_checked,
            !r.server_available,
    {
        AssistantScreen {
            messages: Vec::new(),
            input_text: String::new(),
            is_loading: false,
            server_status_checked: false,
            server_available: false,
        }
    }

    /// The screen's heading.
    pub fn title(&self) -> (r: &str)
        ensures
            r@ == "AI Assistant"@,
    {
        "AI Assistant"
    }

    /// The assistant caches nothing that the store could invalidate, so a
    /// reload request leaves the conversation as it stands.
    pub fn clear_for_reload(&mut self)
        ensures
            *final(self) == *old(self),
    {
    }
}

} // verus!
