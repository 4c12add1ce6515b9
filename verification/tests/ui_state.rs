//! The models and the screens' and modals' cached state.

use dry_dock::modals::{
    ActiveModal, AddBookmarkModal, AddFeedModal, CreateNoteModal, LogModal, ManageFeedsModal,
    UpdateBookmarkModal, UpdateNoteModal, ViewNoteModal,
};
use dry_dock::models::{Bookmark, ChatMessage, FeedItem, MessageRole, Note};
use dry_dock::screens::{AssistantScreen, BookmarksScreen, FeedsScreen, NotesScreen};

#[test]
fn feed_item_constructor_keeps_fields() {
    let item = FeedItem::new(
        7,
        String::from("title"),
        String::from("link"),
        String::from("desc"),
        123,
    );
    assert_eq!(item.id, 7);
    assert_eq!(item.title, "title");
    assert_eq!(item.link, "link");
    assert_eq!(item.description, "desc");
    assert_eq!(item.pub_date, 123);
}

#[test]
fn note_constructor_keeps_fields() {
    let note = Note::new(3, String::from("t"), String::from("d"), 10, Some(20));
    assert_eq!(note.id, 3);
    assert_eq!(note.title, "t");
    assert_eq!(note.details, "d");
    assert_eq!(note.created_at, 10);
    assert_eq!(note.updated_at, Some(20));
}

#[test]
fn bookmark_constructor_keeps_fields() {
    let b = Bookmark::new(1, String::from("n"), String::from("p"), String::from("c"));
    assert_eq!(b.id, 1);
    assert_eq!(b.name, "n");
    assert_eq!(b.path, "p");
    assert_eq!(b.created_at, "c");
}

#[test]
fn message_roles_have_wire_names() {
    assert_eq!(MessageRole::User.as_str(), "user");
    assert_eq!(MessageRole::Assistant.as_str(), "assistant");
}

#[test]
fn chat_message_helpers_set_the_role() {
    let u = ChatMessage::user(String::from("hi"));
    assert!(matches!(u.role, MessageRole::User));
    assert_eq!(u.content, "hi");
    let a = ChatMessage::assistant(String::from("hello"));
    assert!(matches!(a.role, MessageRole::Assistant));
    assert_eq!(a.content, "hello");
    let m = ChatMessage::new(MessageRole::User, String::from("again"));
    assert!(matches!(m.role, MessageRole::User));
    assert_eq!(m.content, "again");
}

#[test]
fn screens_start_empty_and_unloaded() {
    let f = FeedsScreen::new();
    assert!(f.feed_items.is_empty());
    assert!(!f.loaded);
    assert_eq!(f.title(), "RSS Feed Items");
    let n = NotesScreen::new();
    assert!(n.notes.is_empty());
    assert!(n.search_query.is_empty());
    assert_eq!(n.title(), "Notes");
    let b = BookmarksScreen::new();
    assert!(b.bookmarks.is_empty());
    assert!(!b.loaded);
    assert_eq!(b.title(), "Bookmarks Manager");
    let a = AssistantScreen::new();
    assert!(a.messages.is_empty());
    assert_eq!(a.title(), "AI Assistant");
}

#[test]
fn clear_for_reload_resets_loaded_and_keeps_rows() {
    let mut f = FeedsScreen::new();
    f.feed_items.push(FeedItem::new(
        1,
        String::from("t"),
        String::from("l"),
        String::from("d"),
        5,
    ));
    f.loaded = true;
    f.clear_for_reload();
    assert!(!f.loaded);
    assert_eq!(f.feed_items.len(), 1);

    let mut b = BookmarksScreen::new();
    b.loaded = true;
    b.clear_for_reload();
    assert!(!b.loaded);

    let mut a = AssistantScreen::new();
    a.messages.push(ChatMessage::user(String::from("kept")));
    a.clear_for_reload();
    assert_eq!(a.messages.len(), 1);
}

#[test]
fn modal_constructors_start_blank() {
    let add_feed = AddFeedModal::new();
    assert!(add_feed.feed_title.is_empty() && add_feed.url.is_empty());
    let add_bookmark = AddBookmarkModal::new();
    assert!(add_bookmark.name.is_empty() && add_bookmark.location.is_empty());
    let create_note = CreateNoteModal::new();
    assert!(create_note.title.is_empty() && create_note.details.is_empty());
    let log_modal = LogModal::new();
    assert!(log_modal.search_query.is_empty());
    let manage = ManageFeedsModal::new();
    assert!(manage.feeds.is_empty() && !manage.loaded);
}

#[test]
fn edit_modals_remember_their_record_id() {
    let ub = UpdateBookmarkModal::new(11);
    assert_eq!(ub.bookmark_id, 11);
    assert!(!ub.loaded);
    let un = UpdateNoteModal::new(22);
    assert_eq!(un.note_id, 22);
    assert!(!un.loaded);
    let vn = ViewNoteModal::new(33);
    assert_eq!(vn.note_id, 33);
    assert!(!vn.loaded);
}

#[test]
fn active_modal_variants_carry_ids() {
    assert_eq!(ActiveModal::UpdateNote(5), ActiveModal::UpdateNote(5));
    assert_ne!(ActiveModal::UpdateNote(5), ActiveModal::UpdateNote(6));
    assert_ne!(ActiveModal::Closed, ActiveModal::Settings);
}
