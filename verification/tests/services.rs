//! The note, bookmark and log services against a temporary store.

use dry_dock::bookmark_service::{
    add_new_bookmark, delete_bookmark, edit_bookmark, fetch_all_bookmarks, fetch_bookmark,
};
use dry_dock::clock::format_timestamp_or_unknown;
use dry_dock::log_service::{add_log_entry, filter_log_entries, get_all_logs, search_logs};
use dry_dock::modals::ManageFeedsModal;
use dry_dock::note_service::NoteService;
use dry_dock::screens::{BookmarksScreen, FeedsScreen, NotesScreen};
use dry_dock::store::{initialize_database, FeedItemsRepository, FeedsRepository, Store};

fn fresh_store(name: &str) -> Store {
    let nanos = std::time::SystemTime::now()
        .duration_since(std::time::UNIX_EPOCH)
        .unwrap()
        .as_nanos();
    let path = format!("/tmp/dry_dock_{}_{}.db", name, nanos);
    initialize_database(&path).unwrap()
}

#[test]
fn notes_round_trip_through_the_store() {
    let mut store = fresh_store("notes");
    NoteService::create_note(&mut store, "First", "the details").unwrap();
    let notes = NoteService::get_all_notes(&store).unwrap();
    assert_eq!(notes.len(), 1);
    assert_eq!(notes[0].title, "First");
    assert_eq!(notes[0].details, "the details");
    assert_eq!(notes[0].updated_at, None);

    let id = notes[0].id;
    let fetched = NoteService::get_note_by_id(&store, id).unwrap();
    assert_eq!(fetched.id, id);
    assert_eq!(fetched.title, "First");

    NoteService::update_note(&mut store, id, "Renamed", "new details").unwrap();
    let updated = NoteService::get_note_by_id(&store, id).unwrap();
    assert_eq!(updated.title, "Renamed");
    assert_eq!(updated.details, "new details");
    assert!(updated.updated_at.is_some());

    NoteService::delete_note(&mut store, id).unwrap();
    assert_eq!(NoteService::get_all_notes(&store).unwrap().len(), 0);
}

#[test]
fn blank_note_fields_are_rejected() {
    let mut store = fresh_store("note_validation");
    let e1 = NoteService::create_note(&mut store, "   ", "details").unwrap_err();
    assert_eq!(e1, "Note title cannot be empty");
    let e2 = NoteService::create_note(&mut store, "title", " \t ").unwrap_err();
    assert_eq!(e2, "Note details cannot be empty");
    assert_eq!(NoteService::get_all_notes(&store).unwrap().len(), 0);
    let e3 = NoteService::update_note(&mut store, 1, "", "details").unwrap_err();
    assert_eq!(e3, "Note title cannot be empty");
}

#[test]
fn note_search_is_case_insensitive() {
    let mut store = fresh_store("note_search");
    NoteService::create_note(&mut store, "Shopping List", "Buy APPLES and bread").unwrap();
    NoteService::create_note(&mut store, "Meeting", "agenda for tuesday").unwrap();
    let by_title = NoteService::search_notes(&store, "shopping").unwrap();
    assert_eq!(by_title.len(), 1);
    assert_eq!(by_title[0].title, "Shopping List");
    let by_details = NoteService::search_notes(&store, "apples").unwrap();
    assert_eq!(by_details.len(), 1);
    let none = NoteService::search_notes(&store, "carrots").unwrap();
    assert_eq!(none.len(), 0);
    let all = NoteService::search_notes(&store, "").unwrap();
    assert_eq!(all.len(), 2);
}

#[test]
fn bookmarks_round_trip_through_the_store() {
    let mut store = fresh_store("bookmarks");
    add_new_bookmark(&mut store, "Docs", "https://docs.example").unwrap();
    add_new_bookmark(&mut store, "Blog", "https://blog.example").unwrap();
    let all = fetch_all_bookmarks(&store).unwrap();
    assert_eq!(all.len(), 2);
    // Listed by name: Blog before Docs.
    assert_eq!(all[0].1, "Blog");
    assert_eq!(all[1].1, "Docs");

    let id = all[0].0;
    let one = fetch_bookmark(&store, id).unwrap();
    assert_eq!(one.0, id);
    assert_eq!(one.2, "https://blog.example");

    edit_bookmark(&mut store, id, "Blog!", "https://blog2.example").unwrap();
    let edited = fetch_bookmark(&store, id).unwrap();
    assert_eq!(edited.1, "Blog!");
    assert_eq!(edited.2, "https://blog2.example");

    delete_bookmark(&mut store, id).unwrap();
    assert_eq!(fetch_all_bookmarks(&store).unwrap().len(), 1);
}

#[test]
fn log_entries_are_recorded_and_searchable() {
    let mut store = fresh_store("logs");
    add_log_entry(&mut store, "Info", "feed refresh finished");
    add_log_entry(&mut store, "Error", "feed refresh failed");
    add_log_entry(&mut store, "whatever", "odd level");
    let all = get_all_logs(&store);
    assert_eq!(all.len(), 3);
    let levels: Vec<&str> = all.iter().map(|l| l.1.as_str()).collect();
    assert!(levels.contains(&"INFO"));
    assert!(levels.contains(&"ERROR"));
    assert!(!levels.contains(&"whatever"));

    let hits = search_logs(&store, "refresh");
    assert_eq!(hits.len(), 2);
    let misses = search_logs(&store, "nothing here");
    assert_eq!(misses.len(), 0);
}

#[test]
fn note_filter_preserves_order_and_is_exact() {
    let make = |id: i32, title: &str, details: &str| {
        dry_dock::models::Note::new(id, String::from(title), String::from(details), id as i64, None)
    };
    let notes = vec![
        make(1, "Alpha", "about apples"),
        make(2, "Beta", "about bread"),
        make(3, "Gamma", "APPLE pie"),
    ];
    let filtered = NoteService::filter_notes(notes, "apple");
    assert_eq!(filtered.len(), 2);
    assert_eq!(filtered[0].id, 1);
    assert_eq!(filtered[1].id, 3);
}

#[test]
fn log_filter_preserves_order_and_is_exact() {
    let entry = |id: i32, message: &str| {
        (id, String::from("INFO"), String::from(message), String::from("t"))
    };
    let entries = vec![entry(1, "sync started"), entry(2, "idle"), entry(3, "sync done")];
    let filtered = filter_log_entries(entries, "sync");
    assert_eq!(filtered.len(), 2);
    assert_eq!(filtered[0].0, 1);
    assert_eq!(filtered[1].0, 3);
    // Case-sensitive, as stored.
    let none = filter_log_entries(vec![entry(1, "Sync started")], "sync");
    assert_eq!(none.len(), 1 - 1);
}

#[test]
fn timestamps_render_in_calendar_form() {
    assert_eq!(format_timestamp_or_unknown(0), "1970-01-01 00:00:00");
    assert_eq!(format_timestamp_or_unknown(1704067200), "2024-01-01 00:00:00");
    assert_eq!(format_timestamp_or_unknown(i64::MAX), "Unknown");
}

#[test]
fn screens_reload_from_the_store() {
    let mut store = fresh_store("screen_reload");
    FeedsRepository::create(&mut store, "https://example.com/rss", "Example", 1).unwrap();
    let feed_id = FeedsRepository::get_all(&store).unwrap()[0].0;
    FeedItemsRepository::insert_or_ignore(&mut store, feed_id, "Old", "l1", "d", 100, "g1", 1)
        .unwrap();
    FeedItemsRepository::insert_or_ignore(&mut store, feed_id, "New", "l2", "d", 200, "g2", 1)
        .unwrap();

    let mut feeds_screen = FeedsScreen::new();
    feeds_screen.reload(&store).unwrap();
    assert!(feeds_screen.loaded);
    assert_eq!(feeds_screen.feed_items.len(), 2);
    // Newest publication first.
    assert_eq!(feeds_screen.feed_items[0].title, "New");
    assert_eq!(feeds_screen.feed_items[1].title, "Old");

    let mut manager = ManageFeedsModal::new();
    manager.reload(&store).unwrap();
    assert!(manager.loaded);
    assert_eq!(manager.feeds.len(), 1);
    assert_eq!(manager.feeds[0].1, "https://example.com/rss");
    assert_eq!(manager.feeds[0].2, "Example");

    NoteService::create_note(&mut store, "A note", "body").unwrap();
    let mut notes_screen = NotesScreen::new();
    notes_screen.search_query = String::from("pending");
    notes_screen.refresh(&store).unwrap();
    assert!(notes_screen.search_query.is_empty());
    assert_eq!(notes_screen.notes.len(), 1);

    dry_dock::bookmark_service::add_new_bookmark(&mut store, "B", "https://b.example").unwrap();
    let mut bookmarks_screen = BookmarksScreen::new();
    bookmarks_screen.reload(&store).unwrap();
    assert!(bookmarks_screen.loaded);
    assert_eq!(bookmarks_screen.bookmarks.len(), 1);
    assert_eq!(bookmarks_screen.bookmarks[0].name, "B");
}
