//! The ingestion pipeline against a real temporary SQLite store: dedup
//! idempotence, duplicate keys, batch summaries and feed bookkeeping.

use dry_dock::rss_service::{
    fetch_and_store_feed, parse_atom, parse_rss, refresh_all_feeds, sync_feed_content, SyncError,
    SyncSummary,
};
use dry_dock::store::{initialize_database, FeedItemsRepository, FeedsRepository, Store};

fn fresh_store(name: &str) -> Store {
    let nanos = std::time::SystemTime::now()
        .duration_since(std::time::UNIX_EPOCH)
        .unwrap()
        .as_nanos();
    let path = format!("/tmp/dry_dock_{}_{}.db", name, nanos);
    initialize_database(&path).unwrap()
}

fn rss_body(items: &[(&str, &str)]) -> String {
    let mut body = String::from(
        "<?xml version=\"1.0\"?><rss version=\"2.0\"><channel><title>t</title>\
         <link>http://example.com</link><description>d</description>",
    );
    for (title, guid) in items {
        body.push_str(&format!(
            "<item><title>{}</title><link>http://example.com/{}</link>\
             <description>x</description><guid>{}</guid></item>",
            title, guid, guid
        ));
    }
    body.push_str("</channel></rss>");
    body
}

#[test]
fn second_sync_with_no_new_entries_adds_nothing() {
    let mut store = fresh_store("idempotent");
    FeedsRepository::create(&mut store, "https://example.com/rss", "Example", 1).unwrap();
    let body = rss_body(&[("One", "g1"), ("Two", "g2")]);
    let first = sync_feed_content(&mut store, 1, &body, 1000).unwrap();
    assert_eq!(first, 2);
    let second = sync_feed_content(&mut store, 1, &body, 2000).unwrap();
    assert_eq!(second, 0);
    let rows = FeedItemsRepository::get_latest(&store, 100).unwrap();
    assert_eq!(rows.len(), 2);
}

#[test]
fn repeated_key_is_stored_once() {
    let mut store = fresh_store("dup_key");
    FeedsRepository::create(&mut store, "https://example.com/rss", "Example", 1).unwrap();
    for pass in 0..3 {
        let body = rss_body(&[("Same", "dup"), ("Same again", "dup")]);
        let added = sync_feed_content(&mut store, 1, &body, 1000 + pass).unwrap();
        if pass == 0 {
            assert_eq!(added, 1);
        } else {
            assert_eq!(added, 0);
        }
    }
    let rows = FeedItemsRepository::get_latest(&store, 100).unwrap();
    assert_eq!(rows.len(), 1);
}

#[test]
fn duplicate_among_new_entries_adds_only_fresh_rows() {
    // Two rows stored already; the feed then hands back three entries of
    // which only one carries a fresh dedup key.
    let mut store = fresh_store("end_to_end");
    FeedsRepository::create(&mut store, "https://example.com/rss", "Example", 1).unwrap();
    let first = sync_feed_content(&mut store, 1, &rss_body(&[("A", "g1"), ("B", "g2")]), 10)
        .unwrap();
    assert_eq!(first, 2);
    let body = rss_body(&[("A", "g1"), ("B", "g2"), ("C", "g3")]);
    let added = sync_feed_content(&mut store, 1, &body, 20).unwrap();
    assert_eq!(added, 1);
    let rows = FeedItemsRepository::get_latest(&store, 100).unwrap();
    assert_eq!(rows.len(), 3);
}

#[test]
fn unparsable_body_is_a_parse_error() {
    let mut store = fresh_store("parse_error");
    FeedsRepository::create(&mut store, "https://example.com/rss", "Example", 1).unwrap();
    let r = sync_feed_content(&mut store, 1, "this is not a feed", 10);
    assert!(matches!(r, Err(SyncError::Parse)));
    assert_eq!(FeedItemsRepository::get_latest(&store, 100).unwrap().len(), 0);
}

#[test]
fn atom_feed_is_parsed_when_rss_fails() {
    let mut store = fresh_store("atom");
    FeedsRepository::create(&mut store, "https://example.com/atom", "Example", 1).unwrap();
    let body = "<?xml version=\"1.0\"?>\
        <feed xmlns=\"http://www.w3.org/2005/Atom\">\
        <title>t</title><id>feed-id</id><updated>2024-01-02T03:04:05Z</updated>\
        <entry><title>E1</title><id>entry-1</id>\
        <updated>2024-01-02T03:04:05Z</updated>\
        <summary>the summary</summary><link href=\"http://example.com/e1\"/></entry>\
        </feed>";
    let added = sync_feed_content(&mut store, 1, body, 10).unwrap();
    assert_eq!(added, 1);
    let rows = FeedItemsRepository::get_latest(&store, 100).unwrap();
    assert_eq!(rows.len(), 1);
    assert_eq!(rows[0].1, "E1");
    assert_eq!(rows[0].2, "http://example.com/e1");
    assert_eq!(rows[0].3, "the summary");
    // 2024-01-02T03:04:05Z as a Unix timestamp.
    assert_eq!(rows[0].4, 1704164645);
}

#[test]
fn rss_dates_are_parsed_and_defaulted() {
    let mut store = fresh_store("dates");
    FeedsRepository::create(&mut store, "https://example.com/rss", "Example", 1).unwrap();
    let body = "<?xml version=\"1.0\"?><rss version=\"2.0\"><channel><title>t</title>\
        <link>l</link><description>d</description>\
        <item><title>Dated</title><guid>d1</guid>\
        <pubDate>Mon, 01 Jan 2024 00:00:00 +0000</pubDate></item>\
        <item><title>Undated</title><guid>d2</guid></item>\
        </channel></rss>";
    let added = sync_feed_content(&mut store, 1, body, 555).unwrap();
    assert_eq!(added, 2);
    let rows = FeedItemsRepository::get_latest(&store, 100).unwrap();
    let dated = rows.iter().find(|r| r.1 == "Dated").unwrap();
    let undated = rows.iter().find(|r| r.1 == "Undated").unwrap();
    assert_eq!(dated.4, 1704067200);
    assert_eq!(undated.4, 555);
}

#[test]
fn missing_fields_get_defaults() {
    let mut store = fresh_store("defaults");
    FeedsRepository::create(&mut store, "https://example.com/rss", "Example", 1).unwrap();
    // No title, no guid: the title defaults, the link becomes the dedup key.
    let body = "<?xml version=\"1.0\"?><rss version=\"2.0\"><channel><title>t</title>\
        <link>l</link><description>d</description>\
        <item><link>http://example.com/only-link</link></item>\
        </channel></rss>";
    let added = sync_feed_content(&mut store, 1, body, 9).unwrap();
    assert_eq!(added, 1);
    let rows = FeedItemsRepository::get_latest(&store, 100).unwrap();
    assert_eq!(rows[0].1, "Untitled");
    assert_eq!(rows[0].2, "http://example.com/only-link");
}

#[test]
fn duplicate_feed_url_is_rejected() {
    let mut store = fresh_store("unique_url");
    FeedsRepository::create(&mut store, "https://example.com/rss", "One", 1).unwrap();
    let again = FeedsRepository::create(&mut store, "https://example.com/rss", "Two", 2);
    assert!(again.is_err());
    let feeds = FeedsRepository::get_all(&store).unwrap();
    assert_eq!(feeds.len(), 1);
}

#[test]
fn feeds_are_listed_in_creation_order() {
    let mut store = fresh_store("feed_order");
    FeedsRepository::create(&mut store, "https://a.example/rss", "A", 1).unwrap();
    FeedsRepository::create(&mut store, "https://b.example/rss", "B", 2).unwrap();
    let feeds = FeedsRepository::get_all(&store).unwrap();
    assert_eq!(feeds.len(), 2);
    assert_eq!(feeds[0].1, "https://a.example/rss");
    assert_eq!(feeds[0].2, "A");
    assert_eq!(feeds[1].1, "https://b.example/rss");
    assert_eq!(feeds[1].2, "B");
    assert!(feeds[0].0 < feeds[1].0);
}

#[test]
fn deleting_a_feed_cascades_to_its_items() {
    let mut store = fresh_store("cascade");
    FeedsRepository::create(&mut store, "https://example.com/rss", "Example", 1).unwrap();
    let feeds = FeedsRepository::get_all(&store).unwrap();
    let feed_id = feeds[0].0;
    sync_feed_content(&mut store, feed_id, &rss_body(&[("A", "g1")]), 10).unwrap();
    assert_eq!(FeedItemsRepository::get_latest(&store, 100).unwrap().len(), 1);
    FeedsRepository::delete(&mut store, feed_id).unwrap();
    assert_eq!(FeedsRepository::get_all(&store).unwrap().len(), 0);
    assert_eq!(FeedItemsRepository::get_latest(&store, 100).unwrap().len(), 0);
}

#[test]
fn get_latest_truncates_to_the_newest_rows() {
    let mut store = fresh_store("latest_truncate");
    FeedsRepository::create(&mut store, "https://example.com/rss", "Example", 1).unwrap();
    let feed_id = FeedsRepository::get_all(&store).unwrap()[0].0;
    for (guid, date) in [("a", 10i64), ("b", 30), ("c", 20), ("d", 40)] {
        FeedItemsRepository::insert_or_ignore(&mut store, feed_id, guid, "l", "d", date, guid, 1)
            .unwrap();
    }
    // Exactly `limit` rows come back, and they are the globally latest.
    let top2 = FeedItemsRepository::get_latest(&store, 2).unwrap();
    assert_eq!(top2.len(), 2);
    assert_eq!(top2[0].4, 40);
    assert_eq!(top2[1].4, 30);
    // A limit beyond the row count returns every row, once each.
    let all = FeedItemsRepository::get_latest(&store, 100).unwrap();
    assert_eq!(all.len(), 4);
}

#[test]
fn insert_or_ignore_reports_whether_a_row_was_created() {
    let mut store = fresh_store("insert_or_ignore");
    FeedsRepository::create(&mut store, "https://example.com/rss", "Example", 1).unwrap();
    let feed_id = FeedsRepository::get_all(&store).unwrap()[0].0;
    let first =
        FeedItemsRepository::insert_or_ignore(&mut store, feed_id, "T", "L", "D", 5, "key", 6)
            .unwrap();
    let second =
        FeedItemsRepository::insert_or_ignore(&mut store, feed_id, "T2", "L2", "D2", 7, "key", 8)
            .unwrap();
    assert!(first);
    assert!(!second);
    assert_eq!(FeedItemsRepository::get_latest(&store, 100).unwrap().len(), 1);
}

#[test]
fn summary_messages_match_the_outcome() {
    let mut summary = SyncSummary::new();
    summary.record_outcome("A", Ok(0));
    assert_eq!(summary.message(), "Successfully refreshed feeds. Added 0 new items.");
    summary.record_outcome("B", Ok(12));
    assert_eq!(summary.message(), "Successfully refreshed feeds. Added 12 new items.");
    summary.record_outcome("C", Err(SyncError::Parse));
    summary.record_outcome("D", Err(SyncError::Fetch(String::from("no route"))));
    assert_eq!(
        summary.message(),
        "Refreshed feeds with 2 errors. Added 12 items.\nErrors:\n\
         C: Failed to parse feed as RSS or Atom\nD: no route"
    );
}

#[test]
fn one_failure_does_not_suppress_the_other_feeds_count() {
    let mut summary = SyncSummary::new();
    summary.record_outcome("Broken", Err(SyncError::Fetch(String::from("no route"))));
    summary.record_outcome("Healthy", Ok(3));
    assert_eq!(summary.errors.len(), 1);
    assert_eq!(summary.total_items, 3);
    assert_eq!(summary.feeds_attempted, 2);
    assert_eq!(summary.errors[0], "Broken: no route");
    assert!(!summary.is_full_success());
}

#[test]
fn refresh_all_attempts_every_feed_despite_failures() {
    let mut store = fresh_store("refresh_all");
    // Both feeds fail to fetch: one URL is blank, one refuses connections.
    FeedsRepository::create(&mut store, " ", "Blank", 1).unwrap();
    FeedsRepository::create(&mut store, "http://127.0.0.1:1/rss", "Refused", 2).unwrap();
    let summary = refresh_all_feeds(&mut store).unwrap();
    assert_eq!(summary.feeds_attempted, 2);
    assert_eq!(summary.errors.len(), 2);
    assert_eq!(summary.total_items, 0);
    assert!(summary.errors[0].starts_with("Blank: "));
    assert!(summary.errors[1].starts_with("Refused: "));
}

#[test]
fn empty_feed_url_is_reported_as_such() {
    let mut store = fresh_store("empty_url");
    let r = fetch_and_store_feed(&mut store, 1, "  ");
    assert!(matches!(r, Err(SyncError::EmptyUrl)));
}

#[test]
fn unreachable_feed_is_a_fetch_error() {
    let mut store = fresh_store("unreachable");
    let r = fetch_and_store_feed(&mut store, 1, "http://127.0.0.1:1/rss");
    assert!(matches!(r, Err(SyncError::Fetch(_))));
}

#[test]
fn sync_error_messages_name_the_failure() {
    assert_eq!(SyncError::EmptyUrl.message(), "Feed URL is empty");
    assert_eq!(SyncError::Parse.message(), "Failed to parse feed as RSS or Atom");
    assert_eq!(SyncError::Fetch(String::from("boom")).message(), "boom");
    assert_eq!(SyncError::Store(String::from("disk full")).message(), "disk full");
}

#[test]
fn parse_rss_normalizes_items() {
    let body = rss_body(&[("One", "g1")]);
    let entries = parse_rss(&body, 77).unwrap();
    assert_eq!(entries.len(), 1);
    assert_eq!(entries[0].title, "One");
    assert_eq!(entries[0].link, "http://example.com/g1");
    assert_eq!(entries[0].guid, "g1");
    // No pubDate in the body: the clock reading is used.
    assert_eq!(entries[0].pub_date, 77);
    assert!(parse_rss("not xml at all", 77).is_none());
}

#[test]
fn parse_atom_normalizes_entries() {
    let body = "<?xml version=\"1.0\"?>\
        <feed xmlns=\"http://www.w3.org/2005/Atom\">\
        <title>t</title><id>feed-id</id><updated>2024-01-02T03:04:05Z</updated>\
        <entry><title>E1</title><id>entry-1</id>\
        <updated>2024-01-02T03:04:05Z</updated></entry>\
        </feed>";
    let entries = parse_atom(body).unwrap();
    assert_eq!(entries.len(), 1);
    assert_eq!(entries[0].title, "E1");
    assert_eq!(entries[0].guid, "entry-1");
    // No link and no summary: both default to empty.
    assert_eq!(entries[0].link, "");
    assert_eq!(entries[0].description, "");
    // No published date: the updated date stands in.
    assert_eq!(entries[0].pub_date, 1704164645);
    assert!(parse_atom("<rss></rss>").is_none());
}
