//! The feed ingestion pipeline: fetch a feed, parse it as RSS or Atom,
//! normalize its entries, store the new ones through the dedup-insert
//! primitive, and stamp the feed as synced.
//!
//! The pipeline's effect on the store is pinned down by [`ingest_result`],
//! a recursive specification of what dedup-insertion of a sequence of
//! entries does; the laws at the end of this module prove ingestion
//! idempotent and duplicate-free over it.

use crate::clock::{now_timestamp, parse_rfc2822_timestamp, rfc2822_ts};
use crate::text::{decimal_string, spec_digits, spec_trim};
use crate::url::normalize_feed_url;
use crate::store::{
    feeds_of, guids_unique, has_guid, item_row, items_of, spec_set_last_updated, FeedItemsRepository,
    FeedRow, FeedsRepository, ItemRow, Store,
};
use vstd::prelude::*;

verus! {

/// Why syncing a single feed failed.
#[derive(Debug, Clone, PartialEq)]
pub enum SyncError {
    /// The feed URL was empty after trimming.
    EmptyUrl,
    /// The HTTP fetch failed in transport or returned a non-success status.
    Fetch(String),
    /// The response body parsed as neither supported syndication dialect.
    Parse,
    /// A database operation failed while persisting entries.
    Store(String),
}

/// An RSS item as the parser hands it over, each field as optional as the
/// wire format leaves it.
#[derive(Debug)]
pub struct RawRssEntry {
    pub title: Option<String>,
    pub link: Option<String>,
    pub description: Option<String>,
    pub pub_date: Option<String>,
    pub guid: Option<String>,
}

/// An Atom entry as the parser hands it over.
#[derive(Debug)]
pub struct RawAtomEntry {
    pub title: String,
    pub links: Vec<String>,
    pub summary: Option<String>,
    pub content: Option<String>,
    pub published: Option<i64>,
    pub updated: i64,
    pub id: String,
}

/// What the RSS parser makes of a body: its items, or nothing when the body
/// is not well-formed RSS. A function of the body alone.
pub uninterp spec fn rss_parse(content: Seq<char>) -> Option<Seq<RawRssEntry>>;

/// What the Atom parser makes of a body. A function of the body alone.
pub uninterp spec fn atom_parse(content: Seq<char>) -> Option<Seq<RawAtomEntry>>;

/// Relies on rss::Channel::read_from: parses the body as RSS,
/// deterministically in its input; each item's fields are carried over
/// unchanged.
#[verifier::external_body]
fn parse_rss_raw(content: &str) -> (r: Option<Vec<RawRssEntry>>)
    ensures
        rss_parse(content@) == match r {
            Some(v) => Some(v@),
            None => None::<Seq<RawRssEntry>>,
        },
{
    match rss::Channel::read_from(content.as_bytes()) {
        Ok(channel) => Some(
            channel.items().iter().map(|item| RawRssEntry {
                title: item.title().map(|s| s.to_string()),
                link: item.link().map(|s| s.to_string()),
                description: item.description().map(|s| s.to_string()),
                pub_date: item.pub_date().map(|s| s.to_string()),
                guid: item.guid().map(|g| g.value().to_string()),
            }).collect(),
        ),
        Err(_) => None,
    }
}

/// Relies on atom_syndication::Feed::read_from: parses the body as Atom,
/// deterministically in its input; each entry's fields are carried over
/// unchanged, timestamps via chrono's DateTime::timestamp.
#[verifier::external_body]
fn parse_atom_raw(content: &str) -> (r: Option<Vec<RawAtomEntry>>)
    ensures
        atom_parse(content@) == match r {
            Some(v) => Some(v@),
            None => None::<Seq<RawAtomEntry>>,
        },
{
    atom_syndication::Feed::read_from(content.as_bytes()).ok().map(
        |feed|
            feed.entries().iter().map(|entry| RawAtomEntry {
                title: entry.title().as_str().to_string(),
                links: entry.links().iter().map(|l| l.href().to_string()).collect(),
                summary: entry.summary().map(|t| t.as_str().to_string()),
                content: entry.content().and_then(|c| c.value()).map(|v| v.to_string()),
                published: entry.published().map(|d| d.timestamp()),
                updated: entry.updated().timestamp(),
                id: entry.id().to_string(),
            }).collect(),
    )
}

/// A normalized feed entry: every field resolved, ready to persist.
#[derive(Debug)]
pub struct FeedEntry {
    pub title: String,
    pub link: String,
    pub description: String,
    pub pub_date: i64,
    pub guid: String,
}

/// The mathematical shape of a normalized entry.
pub struct EntryModel {
    pub title: Seq<char>,
    pub link: Seq<char>,
    pub description: Seq<char>,
    pub pub_date: int,
    pub guid: Seq<char>,
}

impl View for FeedEntry {
    type V = EntryModel;

    open spec fn view(&self) -> EntryModel {
        EntryModel {
            title: self.title@,
            link: self.link@,
            description: self.description@,
            pub_date: self.pub_date as int,
            guid: self.guid@,
        }
    }
}

/// The models of a sequence of normalized entries.
pub open spec fn entries_view(entries: Seq<FeedEntry>) -> Seq<EntryModel> {
    entries.map(|i: int, e: FeedEntry| e@)
}

/// How one RSS item normalizes: missing title becomes "Untitled", missing
/// link or description become empty, the publication date is the RFC 2822
/// date when one parses and `now` otherwise, and the dedup key is the guid,
/// falling back to the link.
pub open spec fn rss_entry_model(e: RawRssEntry, now: int) -> EntryModel {
    let link = match e.link {
        Some(l) => l@,
        None => Seq::<char>::empty(),
    };
    EntryModel {
        title: match e.title {
            Some(t) => t@,
            None => "Untitled"@,
        },
        link: link,
        description: match e.description {
            Some(d) => d@,
            None => Seq::<char>::empty(),
        },
        pub_date: match e.pub_date {
            Some(d) => match rfc2822_ts(d@) {
                Some(t) => t as int,
                None => now,
            },
            None => now,
        },
        guid: match e.guid {
            Some(g) => g@,
            None => link,
        },
    }
}

/// How one Atom entry normalizes: the first link if any, the summary
/// falling back to the inline content, the published date falling back to
/// the updated date, and the entry id as dedup key.
pub open spec fn atom_entry_model(e: RawAtomEntry) -> EntryModel {
    EntryModel {
        title: e.title@,
        link: if e.links@.len() > 0 {
            e.links@[0]@
        } else {
            Seq::<char>::empty()
        },
        description: match e.summary {
            Some(s) => s@,
            None => match e.content {
                Some(c) => c@,
                None => Seq::<char>::empty(),
            },
        },
        pub_date: match e.published {
            Some(t) => t as int,
            None => e.updated as int,
        },
        guid: e.id@,
    }
}

/// The models of a sequence of RSS items after normalization.
pub open spec fn rss_entries_model(raws: Seq<RawRssEntry>, now: int) -> Seq<EntryModel> {
    raws.map(|i: int, e: RawRssEntry| rss_entry_model(e, now))
}

/// The models of a sequence of Atom entries after normalization.
pub open spec fn atom_entries_model(raws: Seq<RawAtomEntry>) -> Seq<EntryModel> {
    raws.map(|i: int, e: RawAtomEntry| atom_entry_model(e))
}

/// Normalizes one RSS item, defaulting its publication date to `now`.
pub fn normalize_rss_entry(e: &RawRssEntry, now: i64) -> (r: FeedEntry)
    ensures
        r@ == rss_entry_model(*e, now as int),
{
    let pub_date: i64 = match &e.pub_date {
        Some(d) => match parse_rfc2822_timestamp(d.as_str()) {
            Some(t) => t,
            None => now,
        },
        None => now,
    };
    let link: String = match &e.link {
        Some(l) => l.clone(),
        None => String::new(),
    };
    let title: String = match &e.title {
        Some(t) => t.clone(),
        None => String::from_str("Untitled"),
    };
    let description: String = match &e.description {
        Some(d) => d.clone(),
        None => String::new(),
    };
    let guid: String = match &e.guid {
        Some(g) => g.clone(),
        None => link.clone(),
    };
    FeedEntry { title, link, description, pub_date, guid }
}

/// Normalizes one Atom entry.
pub fn normalize_atom_entry(e: &RawAtomEntry) -> (r: FeedEntry)
    ensures
        r@ == atom_entry_model(*e),
{
    let link: String = if e.links.len() > 0 {
        e.links[0].clone()
    } else {
        String::new()
    };
    let description: String = match &e.summary {
        Some(s) => s.clone(),
        None => match &e.content {
            Some(c) => c.clone(),
            None => String::new(),
        },
    };
    let pub_date: i64 = match e.published {
        Some(t) => t,
        None => e.updated,
    };
    FeedEntry { title: e.title.clone(), link, description, pub_date, guid: e.id.clone() }
}

/// Normalizes every RSS item of a parsed channel.
pub fn normalize_rss_entries(raws: &Vec<RawRssEntry>, now: i64) -> (r: Vec<FeedEntry>)
    ensures
        entries_view(r@) == rss_entries_model(raws@, now as int),
{
    let mut out: Vec<FeedEntry> = Vec::new();
    let mut i: usize = 0;
    while i < raws.len()
        invariant
            i <= raws@.len(),
            out@.len() == i,
            forall|j: int| 0 <= j < i ==> (#[trigger] out@[j])@ == rss_entry_model(raws@[j], now as int),
        decreases raws@.len() - i,
    {
        let e = normalize_rss_entry(&raws[i], now);
        out.push(e);
        i = i + 1;
    }
    proof {
        assert(entries_view(out@) =~= rss_entries_model(raws@, now as int));
    }
    out
}

/// Normalizes every entry of a parsed Atom feed.
pub fn normalize_atom_entries(raws: &Vec<RawAtomEntry>) -> (r: Vec<FeedEntry>)
    ensures
        entries_view(r@) == atom_entries_model(raws@),
{
    let mut out: Vec<FeedEntry> = Vec::new();
    let mut i: usize = 0;
    while i < raws.len()
        invariant
            i <= raws@.len(),
            out@.len() == i,
            forall|j: int| 0 <= j < i ==> (#[trigger] out@[j])@ == atom_entry_model(raws@[j]),
        decreases raws@.len() - i,
    {
        let e = normalize_atom_entry(&raws[i]);
        out.push(e);
        i = i + 1;
    }
    proof {
        assert(entries_view(out@) =~= atom_entries_model(raws@));
    }
    out
}

/// Parses a body as RSS and normalizes its items, dating undated entries
/// `now`; nothing when the body is not well-formed RSS.
pub fn parse_rss(content: &str, now: i64) -> (r: Option<Vec<FeedEntry>>)
    ensures
        match rss_parse(content@) {
            Some(raws) => r matches Some(v) && entries_view(v@) == rss_entries_model(
                raws,
                now as int,
            ),
            None => r is None,
        },
{
    match parse_rss_raw(content) {
        Some(raws) => Some(normalize_rss_entries(&raws, now)),
        None => None,
    }
}

/// Parses a body as Atom and normalizes its entries; nothing when the body
/// is not well-formed Atom.
pub fn parse_atom(content: &str) -> (r: Option<Vec<FeedEntry>>)
    ensures
        match atom_parse(content@) {
            Some(raws) => r matches Some(v) && entries_view(v@) == atom_entries_model(raws),
            None => r is None,
        },
{
    match parse_atom_raw(content) {
        Some(raws) => Some(normalize_atom_entries(&raws)),
        None => None,
    }
}

/// The item row a normalized entry becomes, under feed `feed_id`.
pub open spec fn entry_item_row(feed_id: int, e: EntryModel, created_at: int) -> ItemRow {
    item_row(feed_id, e.title, e.link, e.description, e.pub_date, e.guid, created_at)
}

/// What dedup-insertion of `entries` into `items` produces: the items with
/// each fresh-keyed entry appended in order, paired with how many went in.
pub open spec fn ingest_result(
    items: Seq<ItemRow>,
    feed_id: int,
    entries: Seq<EntryModel>,
    created_at: int,
) -> (Seq<ItemRow>, nat)
    decreases entries.len(),
{
    if entries.len() == 0 {
        (items, 0nat)
    } else {
        let e = entries.first();
        let after = if has_guid(items, e.guid) {
            items
        } else {
            items.push(entry_item_row(feed_id, e, created_at))
        };
        let added: nat = if has_guid(items, e.guid) {
            0nat
        } else {
            1nat
        };
        let rest = ingest_result(after, feed_id, entries.drop_first(), created_at);
        (rest.0, added + rest.1)
    }
}

/// Unrolls `ingest_result` from the back: ingesting `es.push(e)` is
/// ingesting `es` and then dedup-inserting `e`.
proof fn lemma_ingest_snoc(
    items: Seq<ItemRow>,
    feed_id: int,
    es: Seq<EntryModel>,
    e: EntryModel,
    created_at: int,
)
    ensures
        ({
            let base = ingest_result(items, feed_id, es, created_at);
            let whole = ingest_result(items, feed_id, es.push(e), created_at);
            (if has_guid(base.0, e.guid) {
                whole.0 == base.0 && whole.1 == base.1
            } else {
                whole.0 == base.0.push(entry_item_row(feed_id, e, created_at)) && whole.1 == base.1
                    + 1
            })
        }),
    decreases es.len(),
{
    if es.len() == 0 {
        let single = es.push(e);
        assert(single.first() == e);
        assert(single.drop_first() =~= Seq::<EntryModel>::empty());
        let after = if has_guid(items, e.guid) {
            items
        } else {
            items.push(entry_item_row(feed_id, e, created_at))
        };
        assert(ingest_result(after, feed_id, single.drop_first(), created_at) == (after, 0nat));
        assert(ingest_result(items, feed_id, es, created_at) == (items, 0nat));
    } else {
        let first = es.first();
        let after = if has_guid(items, first.guid) {
            items
        } else {
            items.push(entry_item_row(feed_id, first, created_at))
        };
        assert(es.push(e).first() == first);
        assert(es.push(e).drop_first() =~= es.drop_first().push(e));
        lemma_ingest_snoc(after, feed_id, es.drop_first(), e, created_at);
        assert(ingest_result(items, feed_id, es.push(e), created_at).0 == ingest_result(
            after,
            feed_id,
            es.drop_first().push(e),
            created_at,
        ).0);
        assert(ingest_result(items, feed_id, es, created_at).0 == ingest_result(
            after,
            feed_id,
            es.drop_first(),
            created_at,
        ).0);
    }
}

/// Persists the normalized entries of one feed through the dedup-insert
/// primitive, returning how many rows were actually created. Stops at the
/// first storage failure, leaving the rows inserted so far in place.
pub fn store_feed_items(
    store: &mut Store,
    feed_id: i32,
    items: &Vec<FeedEntry>,
    created_at: i64,
) -> (r: Result<usize, String>)
    ensures
        feeds_of(*final(store)) == feeds_of(*old(store)),
        match r {
            Ok(n) => ({
                let res = ingest_result(
                    items_of(*old(store)),
                    feed_id as int,
                    entries_view(items@),
                    created_at as int,
                );
                items_of(*final(store)) == res.0 && n == res.1
            }),
            Err(_) => exists|k: int|
                0 <= k <= items@.len() && items_of(*final(store)) == ingest_result(
                    items_of(*old(store)),
                    feed_id as int,
                    #[trigger] entries_view(items@).take(k),
                    created_at as int,
                ).0,
        },
{
    let ghost orig = items_of(*old(store));
    let ghost ev = entries_view(items@);
    let mut added: usize = 0;
    let mut i: usize = 0;
    proof {
        assert(ev.take(0) =~= Seq::<EntryModel>::empty());
    }
    while i < items.len()
        invariant
            i <= items@.len(),
            added <= i,
            orig == items_of(*old(store)),
            ev == entries_view(items@),
            feeds_of(*store) == feeds_of(*old(store)),
            items_of(*store) == ingest_result(orig, feed_id as int, ev.take(i as int), created_at as int).0,
            added == ingest_result(orig, feed_id as int, ev.take(i as int), created_at as int).1,
        decreases items@.len() - i,
    {
        let entry = &items[i];
        proof {
            assert(ev.take(i + 1) =~= ev.take(i as int).push(ev[i as int]));
            assert(ev[i as int] == items@[i as int]@);
            lemma_ingest_snoc(
                orig,
                feed_id as int,
                ev.take(i as int),
                ev[i as int],
                created_at as int,
            );
        }
        match FeedItemsRepository::insert_or_ignore(
            store,
            feed_id,
            entry.title.as_str(),
            entry.link.as_str(),
            entry.description.as_str(),
            entry.pub_date,
            entry.guid.as_str(),
            created_at,
        ) {
            Ok(true) => {
                added = added + 1;
            },
            Ok(false) => {},
            Err(msg) => {
                proof {
                    assert(items_of(*store) == ingest_result(
                        orig,
                        feed_id as int,
                        ev.take(i as int),
                        created_at as int,
                    ).0);
                }
                return Err(msg);
            },
        }
        i = i + 1;
    }
    proof {
        assert(ev.take(items@.len() as int) =~= ev);
    }
    Ok(added)
}

/// Performs the HTTP GET for a feed. Relies on reqwest's blocking client,
/// built with a conventional browser-like user agent, a redirect limit of
/// 10 and a 30-second timeout; returns the status code and body text.
/// Nothing is promised of what the network answers.
#[verifier::external_body]
fn http_get(url: &str) -> (r: Result<(u16, String), String>) {
    let client = reqwest::blocking::Client::builder()
        .user_agent("Mozilla/5.0 (Windows NT 10.0; Win64; x64) AppleWebKit/537.36")
        .redirect(reqwest::redirect::Policy::limited(10))
        .timeout(std::time::Duration::from_secs(30))
        .build()
        .map_err(|e| format!("Failed to create HTTP client: {}", e))?;
    let response = client.get(url).send().map_err(
        |e| format!("Failed to fetch feed from '{}': {}", url, e),
    )?;
    let status = response.status().as_u16();
    let body = response.text().map_err(|e| format!("Failed to read feed content: {}", e))?;
    Ok((status, body))
}

/// What parsing a fetched body yields: the normalized RSS entries when the
/// body is RSS, else the normalized Atom entries when it is Atom, else
/// nothing.
pub open spec fn parse_outcome(content: Seq<char>, now: int) -> Option<Seq<EntryModel>> {
    match rss_parse(content) {
        Some(raws) => Some(rss_entries_model(raws, now)),
        None => match atom_parse(content) {
            Some(raws) => Some(atom_entries_model(raws)),
            None => None,
        },
    }
}

/// The parsed entries of a body, empty when it parses as neither dialect.
pub open spec fn parsed_entries(content: Seq<char>, now: int) -> Seq<EntryModel> {
    match parse_outcome(content, now) {
        Some(entries) => entries,
        None => Seq::<EntryModel>::empty(),
    }
}

/// Parses an already-fetched body and persists its entries: the verified
/// tail of a sync, deterministic given the body and the clock reading.
pub fn sync_feed_content(store: &mut Store, feed_id: i32, content: &str, now: i64) -> (r: Result<
    usize,
    SyncError,
>)
    ensures
        parse_outcome(content@, now as int) is None ==> (r matches Err(e) && e is Parse)
            && items_of(*final(store)) == items_of(*old(store)) && feeds_of(*final(store))
            == feeds_of(*old(store)),
        parse_outcome(content@, now as int) matches Some(entries) ==> (r matches Ok(n) ==> ({
            let res = ingest_result(items_of(*old(store)), feed_id as int, entries, now as int);
            items_of(*final(store)) == res.0 && n == res.1 && feeds_of(*final(store))
                == spec_set_last_updated(feeds_of(*old(store)), feed_id as int, now as int)
        })),
        parse_outcome(content@, now as int) matches Some(entries) ==> (r matches Err(e) ==> e
            is Store && feeds_of(*final(store)) == feeds_of(*old(store))),
        r is Err ==> exists|k: int|
            0 <= k <= parsed_entries(content@, now as int).len() && items_of(*final(store))
                == ingest_result(
                items_of(*old(store)),
                feed_id as int,
                #[trigger] parsed_entries(content@, now as int).take(k),
                now as int,
            ).0,
{
    let entries: Vec<FeedEntry> = match parse_rss(content, now) {
        Some(v) => v,
        None => match parse_atom(content) {
            Some(v) => v,
            None => {
                proof {
                    let pe = parsed_entries(content@, now as int);
                    assert(pe.take(0) =~= Seq::<EntryModel>::empty());
                    assert(ingest_result(
                        items_of(*old(store)),
                        feed_id as int,
                        pe.take(0),
                        now as int,
                    ).0 == items_of(*store));
                }
                return Err(SyncError::Parse);
            },
        },
    };
    let added = match store_feed_items(store, feed_id, &entries, now) {
        Ok(n) => n,
        Err(msg) => {
            proof {
                let evv = entries_view(entries@);
                assert(parse_outcome(content@, now as int) == Some(evv));
                let k = choose|k: int|
                    0 <= k <= entries@.len() && items_of(*store) == ingest_result(
                        items_of(*old(store)),
                        feed_id as int,
                        #[trigger] entries_view(entries@).take(k),
                        now as int,
                    ).0;
                assert(0 <= k <= evv.len());
                assert(items_of(*store) == ingest_result(
                    items_of(*old(store)),
                    feed_id as int,
                    evv.take(k),
                    now as int,
                ).0);
                assert(parsed_entries(content@, now as int) == evv);
                assert(exists|k2: int|
                    0 <= k2 <= parsed_entries(content@, now as int).len() && items_of(*store)
                        == ingest_result(
                        items_of(*old(store)),
                        feed_id as int,
                        #[trigger] parsed_entries(content@, now as int).take(k2),
                        now as int,
                    ).0);
            }
            return Err(SyncError::Store(msg));
        },
    };
    match FeedsRepository::update_last_updated(store, feed_id, now) {
        Ok(()) => Ok(added),
        Err(msg) => {
            proof {
                let evv = entries_view(entries@);
                assert(parse_outcome(content@, now as int) == Some(evv));
                assert(evv.take(evv.len() as int) =~= evv);
                assert(items_of(*store) == ingest_result(
                    items_of(*old(store)),
                    feed_id as int,
                    evv.take(evv.len() as int),
                    now as int,
                ).0);
                assert(parsed_entries(content@, now as int) == evv);
                assert(exists|k2: int|
                    0 <= k2 <= parsed_entries(content@, now as int).len() && items_of(*store)
                        == ingest_result(
                        items_of(*old(store)),
                        feed_id as int,
                        #[trigger] parsed_entries(content@, now as int).take(k2),
                        now as int,
                    ).0);
            }
            Err(SyncError::Store(msg))
        },
    }
}

/// `new_items` is `old_items` with only new rows appended: every appended
/// row belongs to feed `feed_id`, carries a dedup key absent from
/// `old_items`, and no two appended rows share a key.
pub open spec fn extends_with_fresh(
    old_items: Seq<ItemRow>,
    new_items: Seq<ItemRow>,
    feed_id: int,
) -> bool {
    &&& old_items.len() <= new_items.len()
    &&& new_items.take(old_items.len() as int) == old_items
    &&& forall|i: int|
        old_items.len() <= i < new_items.len() ==> (#[trigger] new_items[i]).feed_id == feed_id
            && !has_guid(old_items, new_items[i].guid)
    &&& forall|i: int, j: int|
        old_items.len() <= i < j < new_items.len() ==> (#[trigger] new_items[i]).guid != (
        #[trigger] new_items[j]).guid
}

/// `a` and `b` list the same feeds: same length, ids, urls, titles and
/// creation times; only the last-synced timestamps may differ.
pub open spec fn feeds_same_sources(a: Seq<FeedRow>, b: Seq<FeedRow>) -> bool {
    b.len() == a.len() && forall|i: int|
        0 <= i < a.len() ==> (#[trigger] b[i]).id == a[i].id && b[i].url == a[i].url && b[i].title
            == a[i].title && b[i].created_at == a[i].created_at
}

/// Pushing a row can only grow the set of present dedup keys, by the pushed
/// row's own key.
proof fn lemma_has_guid_push(items: Seq<ItemRow>, g: Seq<char>, r: ItemRow)
    ensures
        has_guid(items.push(r), g) <==> (has_guid(items, g) || r.guid == g),
{
    if has_guid(items, g) {
        let w = choose|i: int| 0 <= i < items.len() && (#[trigger] items[i]).guid == g;
        assert(items.push(r)[w].guid == g);
    }
    if r.guid == g {
        assert(items.push(r)[items.len() as int].guid == g);
    }
    if has_guid(items.push(r), g) {
        let w = choose|i: int|
            0 <= i < items.push(r).len() && (#[trigger] items.push(r)[i]).guid == g;
        if w < items.len() {
            assert(items[w].guid == g);
        } else {
            assert(items.push(r)[items.len() as int] == r);
        }
    }
}

/// Ingestion only appends: the result extends the input with fresh,
/// pairwise-distinct keys, grows by exactly the reported count, and keeps
/// keys unique.
proof fn lemma_ingest_extends(items: Seq<ItemRow>, feed_id: int, es: Seq<EntryModel>, ca: int)
    ensures
        ({
            let res = ingest_result(items, feed_id, es, ca);
            extends_with_fresh(items, res.0, feed_id) && res.0.len() == items.len() + res.1 && (
            guids_unique(items) ==> guids_unique(res.0))
        }),
    decreases es.len(),
{
    let res = ingest_result(items, feed_id, es, ca);
    if es.len() == 0 {
        assert(res.0.take(items.len() as int) =~= items);
    } else {
        let e = es.first();
        let fresh = !has_guid(items, e.guid);
        let row = entry_item_row(feed_id, e, ca);
        let after = if fresh {
            items.push(row)
        } else {
            items
        };
        lemma_ingest_extends(after, feed_id, es.drop_first(), ca);
        let rest = ingest_result(after, feed_id, es.drop_first(), ca);
        assert(res.0 == rest.0);
        if fresh {
            assert(after[items.len() as int] == row);
            assert(rest.0.take(after.len() as int) == after);
            assert(rest.0[items.len() as int] == rest.0.take(after.len() as int)[items.len() as int]);
            assert(rest.0[items.len() as int] == row);
            assert(rest.0.take(items.len() as int) =~= items);
            assert forall|i: int|
                items.len() <= i < res.0.len() implies (#[trigger] res.0[i]).feed_id == feed_id
                    && !has_guid(items, res.0[i].guid) by {
                if i == items.len() {
                    assert(res.0[i] == row);
                } else {
                    assert(after.len() <= i < rest.0.len());
                    assert(!has_guid(after, rest.0[i].guid));
                    lemma_has_guid_push(items, rest.0[i].guid, row);
                }
            }
            assert forall|i: int, j: int|
                items.len() <= i < j < res.0.len() implies (#[trigger] res.0[i]).guid != (
            #[trigger] res.0[j]).guid by {
                if i == items.len() {
                    assert(res.0[i] == row);
                    assert(after.len() <= j < rest.0.len());
                    assert(!has_guid(after, rest.0[j].guid));
                    if rest.0[j].guid == row.guid {
                        assert((#[trigger] after[items.len() as int]).guid == rest.0[j].guid);
                        assert(has_guid(after, rest.0[j].guid));
                    }
                } else {
                    assert(after.len() <= i < j < rest.0.len());
                }
            }
            if guids_unique(items) {
                assert forall|i: int, j: int|
                    0 <= i < j < after.len() implies (#[trigger] after[i]).guid != (
                #[trigger] after[j]).guid by {
                    if j == items.len() {
                        assert(after[j] == row);
                        assert(after[i] == items[i]);
                        if items[i].guid == row.guid {
                            assert((#[trigger] items[i]).guid == row.guid);
                            assert(has_guid(items, row.guid));
                        }
                    } else {
                        assert(after[i] == items[i] && after[j] == items[j]);
                    }
                }
                assert(guids_unique(after));
            }
        } else {
            assert(after == items);
        }
    }
}

/// Updating a feed's last-synced timestamp keeps every feed's identity.
proof fn lemma_set_last_updated_same_sources(feeds: Seq<FeedRow>, feed_id: int, ts: int)
    ensures
        feeds_same_sources(feeds, spec_set_last_updated(feeds, feed_id, ts)),
{
    let updated = spec_set_last_updated(feeds, feed_id, ts);
    assert forall|i: int|
        0 <= i < feeds.len() implies (#[trigger] updated[i]).id == feeds[i].id && updated[i].url
            == feeds[i].url && updated[i].title == feeds[i].title && updated[i].created_at
            == feeds[i].created_at by {
        assert(updated[i] == if feeds[i].id == feed_id {
            FeedRow { last_updated: Some(ts), ..feeds[i] }
        } else {
            feeds[i]
        });
    }
}

/// A store left unchanged trivially extends itself.
proof fn lemma_extends_reflexive(items: Seq<ItemRow>, feed_id: int)
    ensures
        extends_with_fresh(items, items, feed_id),
{
    assert(items.take(items.len() as int) =~= items);
}

/// Syncs one feed: normalizes the URL (rejecting an empty one and
/// defaulting the scheme to https), fetches it with a bounded-timeout GET,
/// parses the body first as RSS and then as Atom, persists the normalized
/// entries through the dedup-insert primitive, stamps the feed as synced,
/// and returns how many items were newly stored.
pub fn fetch_and_store_feed(store: &mut Store, feed_id: i32, feed_url: &str) -> (r: Result<
    usize,
    SyncError,
>)
    ensures
        old(store).wf() ==> final(store).wf(),
        feeds_same_sources(feeds_of(*old(store)), feeds_of(*final(store))),
        extends_with_fresh(items_of(*old(store)), items_of(*final(store)), feed_id as int),
        (r matches Err(e) && e is EmptyUrl) <==> spec_trim(feed_url@).len() == 0,
        r matches Ok(n) ==> items_of(*final(store)).len() == items_of(*old(store)).len() + n
            && exists|ts: int|
            feeds_of(*final(store)) == #[trigger] spec_set_last_updated(
                feeds_of(*old(store)),
                feed_id as int,
                ts,
            ),
        r is Err ==> feeds_of(*final(store)) == feeds_of(*old(store)),
        r matches Err(e) ==> ((e is EmptyUrl || e is Fetch || e is Parse) ==> items_of(
            *final(store),
        ) == items_of(*old(store))),
{
    let url = match normalize_feed_url(feed_url) {
        Ok(u) => u,
        Err(e) => {
            proof {
                lemma_extends_reflexive(items_of(*store), feed_id as int);
            }
            return Err(e);
        },
    };
    let (status, body) = match http_get(url.as_str()) {
        Ok(p) => p,
        Err(msg) => {
            proof {
                lemma_extends_reflexive(items_of(*store), feed_id as int);
            }
            return Err(SyncError::Fetch(msg));
        },
    };
    if status < 200 || status >= 300 {
        proof {
            lemma_extends_reflexive(items_of(*store), feed_id as int);
        }
        let mut m = String::from_str("HTTP error: ");
        let code = decimal_string(status as u64);
        m.append(code.as_str());
        m.append(" for URL: ");
        m.append(url.as_str());
        return Err(SyncError::Fetch(m));
    }
    let now = now_timestamp();
    let result = sync_feed_content(store, feed_id, body.as_str(), now);
    proof {
        let old_items = items_of(*old(store));
        let old_feeds = feeds_of(*old(store));
        let entries = parsed_entries(body@, now as int);
        if parse_outcome(body@, now as int) is None {
            lemma_extends_reflexive(old_items, feed_id as int);
        } else if result is Ok {
            assert(items_of(*store) == ingest_result(
                old_items,
                feed_id as int,
                entries,
                now as int,
            ).0);
            lemma_ingest_extends(old_items, feed_id as int, entries, now as int);
            lemma_set_last_updated_same_sources(old_feeds, feed_id as int, now as int);
            assert(feeds_of(*store) == spec_set_last_updated(
                old_feeds,
                feed_id as int,
                now as int,
            ));
        } else {
            let k = choose|k: int|
                0 <= k <= parsed_entries(body@, now as int).len() && items_of(*store)
                    == ingest_result(
                    old_items,
                    feed_id as int,
                    #[trigger] parsed_entries(body@, now as int).take(k),
                    now as int,
                ).0;
            lemma_ingest_extends(old_items, feed_id as int, entries.take(k), now as int);
        }
    }
    result
}

impl SyncError {
    /// A short human-readable description of the failure.
    pub fn message(&self) -> (r: String)
        ensures
            r@ == sync_error_text(*self),
    {
        match self {
            SyncError::EmptyUrl => String::from_str("Feed URL is empty"),
            SyncError::Fetch(m) => m.clone(),
            SyncError::Parse => String::from_str("Failed to parse feed as RSS or Atom"),
            SyncError::Store(m) => m.clone(),
        }
    }
}

/// The text of a sync failure.
pub open spec fn sync_error_text(e: SyncError) -> Seq<char> {
    match e {
        SyncError::EmptyUrl => "Feed URL is empty"@,
        SyncError::Fetch(m) => m@,
        SyncError::Parse => "Failed to parse feed as RSS or Atom"@,
        SyncError::Store(m) => m@,
    }
}

/// The line a failing feed contributes to a sync summary.
pub open spec fn error_line(feed_title: Seq<char>, e: SyncError) -> Seq<char> {
    feed_title + ": "@ + sync_error_text(e)
}

/// The mathematical shape of a sync summary.
pub struct SummaryModel {
    pub total: int,
    pub errors: Seq<Seq<char>>,
    pub attempted: int,
}

/// The summary of one pass over all subscribed feeds: how many items were
/// added in total, one error line per failing feed, and how many feeds were
/// attempted. One feed's failure never suppresses another's count.
#[derive(Debug)]
pub struct SyncSummary {
    pub total_items: usize,
    pub errors: Vec<String>,
    pub feeds_attempted: usize,
}

impl View for SyncSummary {
    type V = SummaryModel;

    open spec fn view(&self) -> SummaryModel {
        SummaryModel {
            total: self.total_items as int,
            errors: self.errors.deep_view(),
            attempted: self.feeds_attempted as int,
        }
    }
}

/// The summary before any feed was attempted.
pub open spec fn empty_summary_model() -> SummaryModel {
    SummaryModel { total: 0, errors: Seq::<Seq<char>>::empty(), attempted: 0 }
}

/// How one feed's outcome folds into a summary: a success adds its count
/// (saturating at the machine limit), a failure appends its error line;
/// either way the attempt is counted.
pub open spec fn record_outcome_model(
    m: SummaryModel,
    feed_title: Seq<char>,
    outcome: Result<usize, SyncError>,
) -> SummaryModel {
    match outcome {
        Ok(n) => SummaryModel {
            total: if m.total + n <= usize::MAX {
                m.total + n
            } else {
                usize::MAX as int
            },
            errors: m.errors,
            attempted: m.attempted + 1,
        },
        Err(e) => SummaryModel {
            total: m.total,
            errors: m.errors.push(error_line(feed_title, e)),
            attempted: m.attempted + 1,
        },
    }
}

/// Addition that stops at the machine limit instead of overflowing.
fn sat_add_usize(a: usize, b: usize) -> (r: usize)
    ensures
        r == if a + b <= usize::MAX {
            a + b
        } else {
            usize::MAX as int
        },
{
    if a <= usize::MAX - b {
        a + b
    } else {
        usize::MAX
    }
}

impl SyncSummary {
    /// A summary with nothing recorded yet.
    pub fn new() -> (r: Self)
        ensures
            r@ == empty_summary_model(),
    {
        let r = SyncSummary { total_items: 0, errors: Vec::new(), feeds_attempted: 0 };
        proof {
            assert(r@.errors =~= empty_summary_model().errors);
        }
        r
    }

    /// Whether every feed was synced without error.
    pub fn is_full_success(&self) -> (r: bool)
        ensures
            r == (self@.errors.len() == 0),
    {
        self.errors.len() == 0
    }

    /// Folds one feed's outcome into the summary.
    pub fn record_outcome(&mut self, feed_title: &str, outcome: Result<usize, SyncError>)
        requires
            old(self).feeds_attempted < usize::MAX,
        ensures
            final(self)@ == record_outcome_model(old(self)@, feed_title@, outcome),
    {
        self.feeds_attempted = self.feeds_attempted + 1;
        match outcome {
            Ok(n) => {
                self.total_items = sat_add_usize(self.total_items, n);
                proof {
                    assert(self@.errors =~= record_outcome_model(
                        old(self)@,
                        feed_title@,
                        outcome,
                    ).errors);
                }
            },
            Err(e) => {
                let mut line = feed_title.to_owned();
                line.append(": ");
                let msg = e.message();
                line.append(msg.as_str());
                self.errors.push(line);
                proof {
                    assert(self@.errors =~= record_outcome_model(
                        old(self)@,
                        feed_title@,
                        outcome,
                    ).errors);
                }
            },
        }
    }
}

/// Feeds listing the same sources transitively.
proof fn lemma_same_sources_trans(a: Seq<FeedRow>, b: Seq<FeedRow>, c: Seq<FeedRow>)
    requires
        feeds_same_sources(a, b),
        feeds_same_sources(b, c),
    ensures
        feeds_same_sources(a, c),
{
    assert forall|i: int|
        0 <= i < a.len() implies (#[trigger] c[i]).id == a[i].id && c[i].url == a[i].url
            && c[i].title == a[i].title && c[i].created_at == a[i].created_at by {
        assert((#[trigger] b[i]).id == a[i].id);
        assert((#[trigger] c[i]).id == b[i].id);
    }
}

/// Syncs every subscribed feed once, sequentially: one feed's failure is
/// recorded in the summary and never prevents the others from being
/// attempted. Fails outright only when the feed list cannot be read, in
/// which case the store is untouched.
pub fn refresh_all_feeds(store: &mut Store) -> (r: Result<SyncSummary, String>)
    ensures
        old(store).wf() ==> final(store).wf(),
        match r {
            Ok(s) => s@.attempted == feeds_of(*old(store)).len() && s@.errors.len()
                <= s@.attempted && feeds_same_sources(
                feeds_of(*old(store)),
                feeds_of(*final(store)),
            ) && items_of(*old(store)).len() <= items_of(*final(store)).len() && (s@.errors.len()
                == 0 ==> (items_of(*final(store)).len() == items_of(*old(store)).len() + s@.total
                || s@.total == usize::MAX as int)),
            Err(_) => items_of(*final(store)) == items_of(*old(store)) && feeds_of(*final(store))
                == feeds_of(*old(store)),
        },
{
    let feeds = match FeedsRepository::get_all(store) {
        Ok(f) => f,
        Err(e) => {
            return Err(e);
        },
    };
    let mut summary = SyncSummary::new();
    let mut i: usize = 0;
    while i < feeds.len()
        invariant
            i <= feeds@.len(),
            feeds@.len() == feeds_of(*old(store)).len(),
            summary@.attempted == i,
            summary@.errors.len() <= i,
            old(store).wf() ==> store.wf(),
            feeds_same_sources(feeds_of(*old(store)), feeds_of(*store)),
            items_of(*old(store)).len() <= items_of(*store).len(),
            summary@.errors.len() == 0 ==> (items_of(*store).len() == items_of(*old(store)).len()
                + summary@.total || summary@.total == usize::MAX as int),
        decreases feeds@.len() - i,
    {
        let ghost feeds_before = feeds_of(*store);
        let ghost items_before = items_of(*store);
        let feed = &feeds[i];
        let outcome = fetch_and_store_feed(store, feed.0, feed.1.as_str());
        proof {
            if outcome is Ok {
                lemma_same_sources_trans(
                    feeds_of(*old(store)),
                    feeds_before,
                    feeds_of(*store),
                );
            }
        }
        summary.record_outcome(feed.2.as_str(), outcome);
        i = i + 1;
    }
    Ok(summary)
}

/// A key present before ingestion is still present afterward.
proof fn lemma_ingest_preserves_guid(
    items: Seq<ItemRow>,
    feed_id: int,
    es: Seq<EntryModel>,
    ca: int,
    g: Seq<char>,
)
    requires
        has_guid(items, g),
    ensures
        has_guid(ingest_result(items, feed_id, es, ca).0, g),
{
    lemma_ingest_extends(items, feed_id, es, ca);
    let fin = ingest_result(items, feed_id, es, ca).0;
    let w = choose|i: int| 0 <= i < items.len() && (#[trigger] items[i]).guid == g;
    assert(fin.take(items.len() as int)[w] == items[w]);
    assert((#[trigger] fin[w]).guid == g);
}

/// After ingestion, every ingested entry's key is present.
proof fn lemma_ingest_covers(items: Seq<ItemRow>, feed_id: int, es: Seq<EntryModel>, ca: int)
    ensures
        forall|i: int|
            0 <= i < es.len() ==> has_guid(
                ingest_result(items, feed_id, es, ca).0,
                (#[trigger] es[i]).guid,
            ),
    decreases es.len(),
{
    if es.len() > 0 {
        let e = es.first();
        let row = entry_item_row(feed_id, e, ca);
        let after = if has_guid(items, e.guid) {
            items
        } else {
            items.push(row)
        };
        if !has_guid(items, e.guid) {
            assert((#[trigger] after[items.len() as int]).guid == e.guid);
        }
        lemma_ingest_covers(after, feed_id, es.drop_first(), ca);
        lemma_ingest_preserves_guid(after, feed_id, es.drop_first(), ca, e.guid);
        assert forall|i: int|
            0 <= i < es.len() implies has_guid(
                ingest_result(items, feed_id, es, ca).0,
                (#[trigger] es[i]).guid,
            ) by {
            if i > 0 {
                assert(es.drop_first()[i - 1] == es[i]);
            }
        }
    }
}

/// Ingesting entries whose keys are all already present changes nothing.
proof fn lemma_ingest_all_present(items: Seq<ItemRow>, feed_id: int, es: Seq<EntryModel>, ca: int)
    requires
        forall|i: int| 0 <= i < es.len() ==> has_guid(items, (#[trigger] es[i]).guid),
    ensures
        ingest_result(items, feed_id, es, ca) == (items, 0nat),
    decreases es.len(),
{
    if es.len() > 0 {
        assert(es[0] == es.first());
        assert forall|i: int|
            0 <= i < es.drop_first().len() implies has_guid(
                items,
                (#[trigger] es.drop_first()[i]).guid,
            ) by {
            assert(es.drop_first()[i] == es[i + 1]);
        }
        lemma_ingest_all_present(items, feed_id, es.drop_first(), ca);
    }
}

/// Law: ingesting the same entries a second time adds nothing and leaves
/// the store as the first pass left it, whatever timestamps the two passes
/// carry. This is the idempotence of a repeated sync with no new remote
/// entries.
pub proof fn lemma_ingest_idempotent(
    items: Seq<ItemRow>,
    feed_id: int,
    entries: Seq<EntryModel>,
    ca1: int,
    ca2: int,
)
    ensures
        ({
            let first = ingest_result(items, feed_id, entries, ca1);
            let second = ingest_result(first.0, feed_id, entries, ca2);
            second.0 == first.0 && second.1 == 0
        }),
{
    let first = ingest_result(items, feed_id, entries, ca1);
    lemma_ingest_covers(items, feed_id, entries, ca1);
    lemma_ingest_all_present(first.0, feed_id, entries, ca2);
}

/// How many rows of `items` carry the dedup key `g`.
pub open spec fn count_guid(items: Seq<ItemRow>, g: Seq<char>) -> nat
    decreases items.len(),
{
    if items.len() == 0 {
        0nat
    } else {
        (if items.first().guid == g {
            1nat
        } else {
            0nat
        }) + count_guid(items.drop_first(), g)
    }
}

/// A key is present exactly when its count is positive.
proof fn lemma_count_guid_zero(items: Seq<ItemRow>, g: Seq<char>)
    ensures
        (count_guid(items, g) == 0) <==> !has_guid(items, g),
    decreases items.len(),
{
    if items.len() > 0 {
        lemma_count_guid_zero(items.drop_first(), g);
        assert(items[0] == items.first());
        if has_guid(items, g) {
            let w = choose|i: int| 0 <= i < items.len() && (#[trigger] items[i]).guid == g;
            if w > 0 {
                assert(items.drop_first()[w - 1] == items[w]);
            }
        }
        if has_guid(items.drop_first(), g) {
            let w = choose|i: int|
                0 <= i < items.drop_first().len() && (#[trigger] items.drop_first()[i]).guid == g;
            assert((#[trigger] items[w + 1]).guid == g);
        }
    }
}

/// With unique keys, no key is carried by more than one row.
proof fn lemma_count_guid_le_one(items: Seq<ItemRow>, g: Seq<char>)
    requires
        guids_unique(items),
    ensures
        count_guid(items, g) <= 1,
    decreases items.len(),
{
    if items.len() > 0 {
        let rest = items.drop_first();
        assert forall|i: int, j: int|
            0 <= i < j < rest.len() implies (#[trigger] rest[i]).guid != (
        #[trigger] rest[j]).guid by {
            assert(rest[i] == items[i + 1] && rest[j] == items[j + 1]);
        }
        lemma_count_guid_le_one(rest, g);
        if items.first().guid == g {
            assert forall|i: int| 0 <= i < rest.len() implies (#[trigger] rest[i]).guid != g by {
                assert(rest[i] == items[i + 1]);
                assert((#[trigger] items[0]).guid != items[i + 1].guid);
            }
            assert(!has_guid(rest, g));
            lemma_count_guid_zero(rest, g);
        }
    }
}

/// Law: however many entries bearing one and the same dedup key are
/// ingested into a store whose keys are unique, exactly one row with that
/// key exists afterward, and the keys stay unique.
pub proof fn lemma_duplicate_key_stored_once(
    items: Seq<ItemRow>,
    feed_id: int,
    entries: Seq<EntryModel>,
    ca: int,
    g: Seq<char>,
)
    requires
        guids_unique(items),
        entries.len() > 0,
        forall|i: int| 0 <= i < entries.len() ==> (#[trigger] entries[i]).guid == g,
    ensures
        ({
            let res = ingest_result(items, feed_id, entries, ca);
            guids_unique(res.0) && count_guid(res.0, g) == 1
        }),
{
    let res = ingest_result(items, feed_id, entries, ca);
    lemma_ingest_extends(items, feed_id, entries, ca);
    lemma_ingest_covers(items, feed_id, entries, ca);
    assert(has_guid(res.0, (#[trigger] entries[0]).guid));
    lemma_count_guid_zero(res.0, g);
    lemma_count_guid_le_one(res.0, g);
}

/// Law: a failing feed and a succeeding feed folded into a fresh summary
/// yield exactly one recorded error together with the succeeding feed's
/// item count — the failure does not suppress the other feed's items.
pub proof fn lemma_failure_does_not_suppress(
    title_failed: Seq<char>,
    e: SyncError,
    title_ok: Seq<char>,
    n: usize,
)
    ensures
        ({
            let after_failure = record_outcome_model(empty_summary_model(), title_failed, Err(e));
            let after_both = record_outcome_model(after_failure, title_ok, Ok(n));
            after_both.errors.len() == 1 && after_both.total == n && after_both.attempted == 2
        }),
{
}

/// Ingesting entries whose keys all appear among already-ingested entries'
/// keys adds nothing, whatever their other fields say.
proof fn lemma_ingest_same_keys_idempotent(
    items: Seq<ItemRow>,
    feed_id: int,
    entries1: Seq<EntryModel>,
    entries2: Seq<EntryModel>,
    ca1: int,
    ca2: int,
)
    requires
        entries2.len() == entries1.len(),
        forall|i: int|
            0 <= i < entries2.len() ==> (#[trigger] entries2[i]).guid == entries1[i].guid,
    ensures
        ({
            let first = ingest_result(items, feed_id, entries1, ca1);
            let second = ingest_result(first.0, feed_id, entries2, ca2);
            second.0 == first.0 && second.1 == 0
        }),
{
    let first = ingest_result(items, feed_id, entries1, ca1);
    lemma_ingest_covers(items, feed_id, entries1, ca1);
    assert forall|i: int|
        0 <= i < entries2.len() implies has_guid(first.0, (#[trigger] entries2[i]).guid) by {
        assert(has_guid(first.0, (#[trigger] entries1[i]).guid));
    }
    lemma_ingest_all_present(first.0, feed_id, entries2, ca2);
}

/// Law: syncing the same fetched body twice adds nothing the second time,
/// even when the clock has moved between the two passes — entries the body
/// leaves undated take the clock reading as their publication date, but
/// their dedup keys do not, so every repeat is rejected.
pub proof fn lemma_sync_body_idempotent(
    items: Seq<ItemRow>,
    feed_id: int,
    content: Seq<char>,
    now1: int,
    now2: int,
)
    requires
        parse_outcome(content, now1) is Some,
    ensures
        parse_outcome(content, now2) is Some,
        ({
            let first = ingest_result(items, feed_id, parsed_entries(content, now1), now1);
            let second = ingest_result(first.0, feed_id, parsed_entries(content, now2), now2);
            second.0 == first.0 && second.1 == 0
        }),
{
    let e1 = parsed_entries(content, now1);
    let e2 = parsed_entries(content, now2);
    if rss_parse(content) is Some {
        let raws = rss_parse(content).unwrap();
        assert(e1 == rss_entries_model(raws, now1));
        assert(e2 == rss_entries_model(raws, now2));
        assert forall|i: int|
            0 <= i < e2.len() implies (#[trigger] e2[i]).guid == e1[i].guid by {
            assert(e1[i] == rss_entry_model(raws[i], now1));
            assert(e2[i] == rss_entry_model(raws[i], now2));
        }
    } else {
        let raws = atom_parse(content).unwrap();
        assert(e1 == atom_entries_model(raws));
        assert(e2 == atom_entries_model(raws));
    }
    lemma_ingest_same_keys_idempotent(items, feed_id, e1, e2, now1, now2);
}

/// The error lines of a summary, one per line.
pub open spec fn join_lines(lines: Seq<Seq<char>>) -> Seq<char>
    decreases lines.len(),
{
    if lines.len() == 0 {
        Seq::<char>::empty()
    } else if lines.len() == 1 {
        lines[0]
    } else {
        lines.first() + "\n"@ + join_lines(lines.drop_first())
    }
}

/// Joining one more line appends a separator and the line.
proof fn lemma_join_lines_push(lines: Seq<Seq<char>>, x: Seq<char>)
    ensures
        join_lines(lines.push(x)) == if lines.len() == 0 {
            x
        } else {
            join_lines(lines) + "\n"@ + x
        },
    decreases lines.len(),
{
    if lines.len() == 0 {
        assert(lines.push(x)[0] == x);
    } else {
        assert(lines.push(x).first() == lines.first());
        assert(lines.push(x).drop_first() =~= lines.drop_first().push(x));
        lemma_join_lines_push(lines.drop_first(), x);
    }
}

/// The report a whole sync pass renders: full success names the item
/// count; partial success names the error count and lists the error lines.
pub open spec fn summary_message(m: SummaryModel) -> Seq<char> {
    if m.errors.len() == 0 {
        "Successfully refreshed feeds. Added "@ + spec_digits(m.total as nat) + " new items."@
    } else {
        "Refreshed feeds with "@ + spec_digits(m.errors.len() as nat) + " errors. Added "@
            + spec_digits(m.total as nat) + " items.\nErrors:\n"@ + join_lines(m.errors)
    }
}

impl SyncSummary {
    /// Renders the summary as the log line the hub records after a pass.
    pub fn message(&self) -> (r: String)
        ensures
            r@ == summary_message(self@),
    {
        if self.errors.len() == 0 {
            let mut m = String::from_str("Successfully refreshed feeds. Added ");
            let count = decimal_string(self.total_items as u64);
            m.append(count.as_str());
            m.append(" new items.");
            proof {
                assert(m@ =~= summary_message(self@));
            }
            m
        } else {
            let ghost dv = self.errors.deep_view();
            let mut m = String::from_str("Refreshed feeds with ");
            let error_count = decimal_string(self.errors.len() as u64);
            m.append(error_count.as_str());
            m.append(" errors. Added ");
            let count = decimal_string(self.total_items as u64);
            m.append(count.as_str());
            m.append(" items.\nErrors:\n");
            let ghost head = m@;
            proof {
                assert(dv.take(0) =~= Seq::<Seq<char>>::empty());
                assert(head + join_lines(dv.take(0)) =~= head);
            }
            let mut i: usize = 0;
            while i < self.errors.len()
                invariant
                    i <= self.errors@.len(),
                    dv == self.errors.deep_view(),
                    dv.len() == self.errors@.len(),
                    m@ == head + join_lines(dv.take(i as int)),
                decreases self.errors@.len() - i,
            {
                proof {
                    assert(dv[i as int] == self.errors@[i as int]@);
                    assert(dv.take(i + 1) =~= dv.take(i as int).push(dv[i as int]));
                    lemma_join_lines_push(dv.take(i as int), dv[i as int]);
                }
                if i > 0 {
                    m.append("\n");
                }
                m.append(self.errors[i].as_str());
                proof {
                    assert(m@ =~= head + join_lines(dv.take(i + 1)));
                }
                i = i + 1;
            }
            proof {
                assert(dv.take(dv.len() as int) =~= dv);
                assert(m@ =~= summary_message(self@));
            }
            m
        }
    }
}

} // verus!
