//! The embedded store: a bounded pool of SQLite connections with an
//! idempotent schema migration, and the typed repositories for feeds and
//! feed items.
//!
//! The store's contents are modelled by two ghost sequences, [`feeds_of`]
//! and [`items_of`]; every repository operation states how it moves them.
//! The store-wide invariant is [`Store::wf`]: feed item dedup keys (guids)
//! are unique, and feeds have pairwise-distinct ids and source URLs — what
//! the schema's UNIQUE constraints and primary keys enforce.

use vstd::prelude::*;

verus! {

/// One row of the feeds table.
pub struct FeedRow {
    pub id: int,
    pub url: Seq<char>,
    pub title: Seq<char>,
    pub last_updated: Option<int>,
    pub created_at: int,
}

/// One row of the feed_items table.
pub struct ItemRow {
    pub feed_id: int,
    pub title: Seq<char>,
    pub link: Seq<char>,
    pub description: Seq<char>,
    pub pub_date: int,
    pub guid: Seq<char>,
    pub created_at: int,
}

/// Builds an item row from its column values.
pub open spec fn item_row(
    feed_id: int,
    title: Seq<char>,
    link: Seq<char>,
    description: Seq<char>,
    pub_date: int,
    guid: Seq<char>,
    created_at: int,
) -> ItemRow {
    ItemRow { feed_id, title, link, description, pub_date, guid, created_at }
}

/// Builds a feed row that has never been synced.
pub open spec fn feed_row(id: int, url: Seq<char>, title: Seq<char>, created_at: int) -> FeedRow {
    FeedRow { id, url, title, last_updated: None, created_at }
}

/// Some item in `items` carries the dedup key `guid`.
pub open spec fn has_guid(items: Seq<ItemRow>, guid: Seq<char>) -> bool {
    exists|i: int| 0 <= i < items.len() && (#[trigger] items[i]).guid == guid
}

/// No two items share a dedup key.
pub open spec fn guids_unique(items: Seq<ItemRow>) -> bool {
    forall|i: int, j: int|
        0 <= i < j < items.len() ==> (#[trigger] items[i]).guid != (#[trigger] items[j]).guid
}

/// Some feed in `feeds` has the source URL `url`.
pub open spec fn has_feed_url(feeds: Seq<FeedRow>, url: Seq<char>) -> bool {
    exists|i: int| 0 <= i < feeds.len() && (#[trigger] feeds[i]).url == url
}

/// No two feeds share an id.
pub open spec fn feed_ids_unique(feeds: Seq<FeedRow>) -> bool {
    forall|i: int, j: int|
        0 <= i < j < feeds.len() ==> (#[trigger] feeds[i]).id != (#[trigger] feeds[j]).id
}

/// No two feeds share a source URL.
pub open spec fn feed_urls_unique(feeds: Seq<FeedRow>) -> bool {
    forall|i: int, j: int|
        0 <= i < j < feeds.len() ==> (#[trigger] feeds[i]).url != (#[trigger] feeds[j]).url
}

/// `feeds` with the last-synced timestamp of feed `feed_id` set to `ts`.
pub open spec fn spec_set_last_updated(feeds: Seq<FeedRow>, feed_id: int, ts: int) -> Seq<FeedRow> {
    Seq::new(
        feeds.len(),
        |i: int|
            if feeds[i].id == feed_id {
                FeedRow { last_updated: Some(ts), ..feeds[i] }
            } else {
                feeds[i]
            },
    )
}

/// `feeds` without the feed `feed_id`.
pub open spec fn spec_remove_feed(feeds: Seq<FeedRow>, feed_id: int) -> Seq<FeedRow> {
    feeds.filter(|f: FeedRow| f.id != feed_id)
}

/// `items` without the items owned by feed `feed_id`.
pub open spec fn spec_remove_items_of_feed(items: Seq<ItemRow>, feed_id: int) -> Seq<ItemRow> {
    items.filter(|i: ItemRow| i.feed_id != feed_id)
}

/// A handle on the embedded database: owns a bounded pool of connections,
/// each opened with foreign-key enforcement and write-ahead logging.
#[verifier::external_body]
pub struct Store {
    pub(crate) pool: r2d2::Pool<r2d2_sqlite::SqliteConnectionManager>,
}

/// The feed rows the store holds, in increasing id order. The model reads
/// each `Store` as the sole handle on its database file: the application
/// initializes the store once and passes it around, as these contracts
/// assume.
pub uninterp spec fn feeds_of(s: Store) -> Seq<FeedRow>;

/// The feed item rows the store holds, in insertion order; the same
/// single-handle reading as [`feeds_of`].
pub uninterp spec fn items_of(s: Store) -> Seq<ItemRow>;

impl Store {
    /// The store's invariant: feed item dedup keys are unique store-wide,
    /// and feeds have pairwise-distinct ids and pairwise-distinct source
    /// URLs — what the schema's UNIQUE constraints and the id primary key
    /// enforce.
    pub open spec fn wf(self) -> bool {
        &&& guids_unique(items_of(self))
        &&& feed_ids_unique(feeds_of(self))
        &&& feed_urls_unique(feeds_of(self))
    }
}

/// A leased, exclusively-owned pooled connection; returns to the pool when
/// dropped, on every exit path.
#[verifier::external_body]
pub struct StoreHandle {
    conn: r2d2::PooledConnection<r2d2_sqlite::SqliteConnectionManager>,
}

/// The schema, created if absent on every initialization.
const MIGRATION_SQL: &'static str = "
    CREATE TABLE IF NOT EXISTS feeds (
        id INTEGER PRIMARY KEY AUTOINCREMENT,
        title TEXT NOT NULL,
        url TEXT UNIQUE NOT NULL,
        last_updated INTEGER,
        created_at INTEGER NOT NULL
    );

    CREATE TABLE IF NOT EXISTS feed_items (
        id INTEGER PRIMARY KEY AUTOINCREMENT,
        feed_id INTEGER NOT NULL,
        title TEXT NOT NULL,
        link TEXT,
        description TEXT,
        pub_date INTEGER,
        guid TEXT UNIQUE,
        created_at INTEGER NOT NULL,
        FOREIGN KEY (feed_id) REFERENCES feeds(id) ON DELETE CASCADE
    );

    CREATE INDEX IF NOT EXISTS idx_feed_items_feed_id ON feed_items(feed_id);
    CREATE INDEX IF NOT EXISTS idx_feed_items_pub_date ON feed_items(pub_date DESC);

    CREATE TABLE IF NOT EXISTS notes (
        id INTEGER PRIMARY KEY AUTOINCREMENT,
        title TEXT NOT NULL,
        details TEXT,
        created_at INTEGER NOT NULL,
        updated_at INTEGER
    );

    CREATE INDEX IF NOT EXISTS idx_notes_title ON notes(title);

    CREATE TABLE IF NOT EXISTS bookmarks (
        id INTEGER PRIMARY KEY AUTOINCREMENT,
        name TEXT NOT NULL,
        location TEXT UNIQUE NOT NULL,
        created_at INTEGER NOT NULL
    );

    CREATE INDEX IF NOT EXISTS idx_bookmarks_name ON bookmarks(name);

    CREATE TABLE IF NOT EXISTS logs (
        id INTEGER PRIMARY KEY AUTOINCREMENT,
        level TEXT NOT NULL,
        message TEXT NOT NULL,
        timestamp INTEGER NOT NULL
    );

    CREATE INDEX IF NOT EXISTS idx_logs_timestamp ON logs(timestamp DESC);
    CREATE INDEX IF NOT EXISTS idx_logs_level ON logs(level);
";

/// Opens (creating the database file if absent) a bounded connection pool
/// whose connections enable foreign keys and WAL mode when established.
/// Relies on r2d2_sqlite::SqliteConnectionManager::file / with_init and
/// r2d2::Builder::build; Pool::get later waits at most the given timeout.
/// r2d2 asserts that the pool size and the timeout are positive, so both
/// are required here.
#[verifier::external_body]
fn open_pool(db_path: &str, max_handles: u32, acquire_timeout_ms: u64) -> (r: Result<Store, String>)
    requires
        1 <= max_handles,
        1 <= acquire_timeout_ms,
{
    let manager = r2d2_sqlite::SqliteConnectionManager::file(db_path).with_init(|conn| {
        conn.execute_batch("PRAGMA foreign_keys = ON; PRAGMA journal_mode = WAL;")
    });
    let pool = r2d2::Pool::builder().max_size(max_handles).connection_timeout(
        std::time::Duration::from_millis(acquire_timeout_ms),
    ).build(manager).map_err(|e| format!("Failed to create connection pool: {}", e))?;
    Ok(Store { pool })
}

/// Runs the idempotent schema migration. Relies on
/// rusqlite::Connection::execute_batch with CREATE ... IF NOT EXISTS
/// statements: existing rows are untouched, and on success the store's
/// invariant holds of every row it has — the schema's UNIQUE constraint on
/// feed_items.guid, the feeds id primary key and the UNIQUE constraint on
/// feeds.url — since every database this library opens was created with
/// this schema.
#[verifier::external_body]
fn run_migrations(store: &mut Store) -> (r: Result<(), String>)
    ensures
        feeds_of(*final(store)) == feeds_of(*old(store)),
        items_of(*final(store)) == items_of(*old(store)),
        r is Ok ==> final(store).wf(),
{
    let conn = store.pool.get().map_err(|e| format!("Failed to get connection from pool: {}", e))?;
    conn.execute_batch(MIGRATION_SQL).map_err(|e| format!("Failed to run migrations: {}", e))
}

/// Initializes the store at `db_path` with the default limits: at most 10
/// concurrent handles, each acquisition waiting at most 30 seconds.
pub fn initialize_database(db_path: &str) -> (r: Result<Store, String>)
    ensures
        r matches Ok(s) ==> s.wf(),
{
    initialize_database_with(db_path, 10, 30_000)
}

/// Initializes the store at `db_path`: creates the database file if absent,
/// opens the bounded pool and runs the schema migration. The pool size and
/// the acquisition timeout must be positive — the pool asserts both.
pub fn initialize_database_with(db_path: &str, max_handles: u32, acquire_timeout_ms: u64) -> (r:
    Result<Store, String>)
    requires
        1 <= max_handles,
        1 <= acquire_timeout_ms,
    ensures
        r matches Ok(s) ==> s.wf(),
{
    match open_pool(db_path, max_handles, acquire_timeout_ms) {
        Ok(mut store) => match run_migrations(&mut store) {
            Ok(()) => Ok(store),
            Err(e) => Err(e),
        },
        Err(e) => Err(e),
    }
}

/// Leases a pooled connection. Relies on r2d2::Pool::get: it waits at most
/// the configured acquire timeout for a free handle and then fails, so
/// callers beyond the concurrency ceiling block briefly or err, and never
/// observe another caller's connection.
#[verifier::external_body]
pub fn get_connection(store: &Store) -> (r: Result<StoreHandle, String>) {
    match store.pool.get() {
        Ok(conn) => Ok(StoreHandle { conn }),
        Err(e) => Err(format!("Failed to get connection from pool: {}", e)),
    }
}

/// `v` selects rows of `items` through the index map `f`: injectively,
/// field for field, and — whenever a row was left out — only rows that
/// publish no later than the last (oldest) selected one were left out.
pub open spec fn latest_selection(
    v: Seq<(i32, String, String, String, i64)>,
    items: Seq<ItemRow>,
    f: Seq<int>,
) -> bool {
    &&& f.len() == v.len()
    &&& forall|i: int| 0 <= i < v.len() ==> 0 <= #[trigger] f[i] < items.len()
    &&& forall|i: int|
        0 <= i < v.len() ==> ((#[trigger] items[f[i]]).title == v[i].1@ && items[f[i]].link
            == v[i].2@ && items[f[i]].description == v[i].3@ && items[f[i]].pub_date == v[i].4
            as int)
    &&& forall|i: int, j: int| 0 <= i < j < v.len() ==> #[trigger] f[i] != #[trigger] f[j]
    &&& forall|k: int|
        0 <= k < items.len() && (forall|i: int| 0 <= i < f.len() ==> #[trigger] f[i] != k) && v.len()
            > 0 ==> (#[trigger] items[k]).pub_date <= v[v.len() - 1].4 as int
}

/// Feeds repository: typed access to the feeds table.
pub struct FeedsRepository;

/// Feed items repository: typed access to the feed_items table; its
/// insert-if-absent primitive is the store's dedup guarantee.
pub struct FeedItemsRepository;

impl FeedsRepository {
    /// Adds a feed. Relies on rusqlite::Connection::execute with
    /// "INSERT INTO feeds ...": the UNIQUE constraint on url makes the
    /// insert fail when the url is already subscribed, and AUTOINCREMENT
    /// hands the new row an id above every existing one.
    #[verifier::external_body]
    pub fn create(store: &mut Store, url: &str, title: &str, created_at: i64) -> (r: Result<
        (),
        String,
    >)
        ensures
            items_of(*final(store)) == items_of(*old(store)),
            match r {
                Ok(()) => !has_feed_url(feeds_of(*old(store)), url@) && exists|id: int|
                    feeds_of(*final(store)) == feeds_of(*old(store)).push(
                        feed_row(id, url@, title@, created_at as int),
                    ) && forall|j: int|
                        0 <= j < feeds_of(*old(store)).len() ==> (#[trigger] feeds_of(
                            *old(store),
                        )[j]).id < id,
                Err(_) => feeds_of(*final(store)) == feeds_of(*old(store)),
            },
            has_feed_url(feeds_of(*old(store)), url@) ==> r is Err,
    {
        let conn = store.pool.get().map_err(|e| format!("Failed to get connection from pool: {}", e))?;
        conn.execute(
            "INSERT INTO feeds (title, url, created_at) VALUES (?1, ?2, ?3)",
            (title, url, created_at),
        ).map_err(|e| format!("Failed to add feed: {}", e))?;
        Ok(())
    }

    /// Lists all feeds as (id, url, title), one triple per feed row in id
    /// order; under the store invariant the listed ids and source URLs are
    /// pairwise distinct. Relies on rusqlite prepare / query_map with
    /// "SELECT id, url, title FROM feeds ORDER BY id".
    #[verifier::external_body]
    pub fn get_all(store: &Store) -> (r: Result<Vec<(i32, String, String)>, String>)
        ensures
            match r {
                Ok(v) => v@.len() == feeds_of(*store).len() && forall|i: int|
                    0 <= i < v@.len() ==> (#[trigger] v@[i]).0 as int == feeds_of(*store)[i].id
                        && v@[i].1@ == feeds_of(*store)[i].url && v@[i].2@ == feeds_of(
                        *store,
                    )[i].title,
                Err(_) => true,
            },
            store.wf() ==> match r {
                Ok(v) => (forall|i: int, j: int|
                    0 <= i < j < v@.len() ==> (#[trigger] v@[i]).0 != (#[trigger] v@[j]).0) && (
                forall|i: int, j: int|
                    0 <= i < j < v@.len() ==> (#[trigger] v@[i]).1@ != (#[trigger] v@[j]).1@),
                Err(_) => true,
            },
    {
        let conn = store.pool.get().map_err(|e| format!("Failed to get connection from pool: {}", e))?;
        let mut stmt = conn.prepare("SELECT id, url, title FROM feeds ORDER BY id").map_err(
            |e| format!("Failed to prepare statement: {}", e),
        )?;
        let feeds = stmt.query_map([], |row| Ok((row.get(0)?, row.get(1)?, row.get(2)?))).map_err(
            |e| format!("Failed to query feeds: {}", e),
        )?.collect::<Result<Vec<_>, _>>().map_err(|e| format!("Failed to collect feeds: {}", e))?;
        Ok(feeds)
    }

    /// Sets a feed's last-synced timestamp. Relies on rusqlite execute with
    /// "UPDATE feeds SET last_updated = ? WHERE id = ?": exactly the rows
    /// with that id change, and only in their last_updated column.
    #[verifier::external_body]
    pub fn update_last_updated(store: &mut Store, feed_id: i32, timestamp: i64) -> (r: Result<
        (),
        String,
    >)
        ensures
            items_of(*final(store)) == items_of(*old(store)),
            match r {
                Ok(()) => feeds_of(*final(store)) == spec_set_last_updated(
                    feeds_of(*old(store)),
                    feed_id as int,
                    timestamp as int,
                ),
                Err(_) => feeds_of(*final(store)) == feeds_of(*old(store)),
            },
    {
        let conn = store.pool.get().map_err(|e| format!("Failed to get connection from pool: {}", e))?;
        conn.execute(
            "UPDATE feeds SET last_updated = ?1 WHERE id = ?2",
            (timestamp, feed_id),
        ).map_err(|e| format!("Failed to update feed timestamp: {}", e))?;
        Ok(())
    }

    /// Deletes a feed and, through the schema's ON DELETE CASCADE, its
    /// items. Relies on rusqlite execute with "DELETE FROM feeds WHERE id = ?".
    #[verifier::external_body]
    pub fn delete(store: &mut Store, feed_id: i32) -> (r: Result<(), String>)
        ensures
            match r {
                Ok(()) => feeds_of(*final(store)) == spec_remove_feed(
                    feeds_of(*old(store)),
                    feed_id as int,
                ) && items_of(*final(store)) == spec_remove_items_of_feed(
                    items_of(*old(store)),
                    feed_id as int,
                ),
                Err(_) => feeds_of(*final(store)) == feeds_of(*old(store)) && items_of(
                    *final(store),
                ) == items_of(*old(store)),
            },
    {
        let conn = store.pool.get().map_err(|e| format!("Failed to get connection from pool: {}", e))?;
        conn.execute("DELETE FROM feeds WHERE id = ?1", (feed_id,)).map_err(
            |e| format!("Failed to delete feed: {}", e),
        )?;
        Ok(())
    }
}

impl FeedItemsRepository {
    /// The dedup-insert primitive: stores the item unless its dedup key is
    /// already present, and reports whether a row was actually created.
    /// Relies on rusqlite execute with "INSERT OR IGNORE INTO feed_items
    /// ...": SQLite skips the row exactly when the UNIQUE constraint on
    /// guid conflicts, and the changed-row count says whether it went in.
    #[verifier::external_body]
    pub fn insert_or_ignore(
        store: &mut Store,
        feed_id: i32,
        title: &str,
        link: &str,
        description: &str,
        pub_date: i64,
        guid: &str,
        created_at: i64,
    ) -> (r: Result<bool, String>)
        ensures
            feeds_of(*final(store)) == feeds_of(*old(store)),
            match r {
                Ok(true) => !has_guid(items_of(*old(store)), guid@) && items_of(*final(store))
                    == items_of(*old(store)).push(
                    item_row(
                        feed_id as int,
                        title@,
                        link@,
                        description@,
                        pub_date as int,
                        guid@,
                        created_at as int,
                    ),
                ),
                Ok(false) => has_guid(items_of(*old(store)), guid@) && items_of(*final(store))
                    == items_of(*old(store)),
                Err(_) => items_of(*final(store)) == items_of(*old(store)),
            },
    {
        let conn = store.pool.get().map_err(|e| format!("Failed to get connection from pool: {}", e))?;
        let changed = conn.execute(
            "INSERT OR IGNORE INTO feed_items (feed_id, title, link, description, pub_date, guid, created_at) VALUES (?1, ?2, ?3, ?4, ?5, ?6, ?7)",
            (feed_id, title, link, description, pub_date, guid, created_at),
        ).map_err(|e| format!("Failed to insert feed item: {}", e))?;
        Ok(changed == 1)
    }

    /// The most recently published items, as (id, title, link, description,
    /// pub_date): exactly min(limit, row-count) rows, each store row
    /// represented at most once, in descending publication order, and no
    /// left-out row publishes later than the oldest returned one. Relies on
    /// rusqlite prepare / query_map with "SELECT ... FROM feed_items ORDER
    /// BY pub_date DESC LIMIT ?".
    #[verifier::external_body]
    pub fn get_latest(store: &Store, limit: i32) -> (r: Result<
        Vec<(i32, String, String, String, i64)>,
        String,
    >)
        requires
            0 <= limit,
        ensures
            match r {
                Ok(v) => v@.len() <= limit && v@.len() <= items_of(*store).len() && (items_of(
                    *store,
                ).len() <= limit ==> v@.len() == items_of(*store).len()) && (limit
                    <= items_of(*store).len() ==> v@.len() == limit) && (forall|i: int|
                    0 <= i < v@.len() ==> exists|j: int|
                        0 <= j < items_of(*store).len() && (#[trigger] items_of(*store)[j]).title
                            == (#[trigger] v@[i]).1@ && items_of(*store)[j].link == v@[i].2@
                            && items_of(*store)[j].description == v@[i].3@ && items_of(
                            *store,
                        )[j].pub_date == v@[i].4 as int) && (forall|i: int, k: int|
                    0 <= i < k < v@.len() ==> (#[trigger] v@[i]).4 >= (#[trigger] v@[k]).4) && (
                exists|f: Seq<int>| latest_selection(v@, items_of(*store), f)),
                Err(_) => true,
            },
    {
        let conn = store.pool.get().map_err(|e| format!("Failed to get connection from pool: {}", e))?;
        let mut stmt = conn.prepare(
            "SELECT id, title, link, description, pub_date FROM feed_items ORDER BY pub_date DESC LIMIT ?1",
        ).map_err(|e| format!("Failed to prepare statement: {}", e))?;
        let items = stmt.query_map((limit,), |row| {
            Ok((row.get(0)?, row.get(1)?, row.get(2)?, row.get(3)?, row.get(4)?))
        }).map_err(|e| format!("Failed to query feed items: {}", e))?.collect::<Result<
            Vec<_>,
            _,
        >>().map_err(|e| format!("Failed to collect feed items: {}", e))?;
        Ok(items)
    }
}

} // verus!
