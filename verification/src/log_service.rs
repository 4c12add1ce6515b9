//! Log service: the thin business layer over the logs repository. Logging
//! never fails the caller — a failed write is dropped.

use crate::logs_repository::LogsRepository;
use crate::store::{feeds_of, items_of, Store};
use crate::text::{contains_str, spec_contains};
use vstd::prelude::*;

verus! {

/// Records a log entry; a storage failure is swallowed, since logging must
/// never break the operation being logged.
pub fn add_log_entry(store: &mut Store, level: &str, message: &str)
    ensures
        feeds_of(*final(store)) == feeds_of(*old(store)),
        items_of(*final(store)) == items_of(*old(store)),
{
    let _ = LogsRepository::create(store, level, message);
}

/// The most recent log entries, or nothing when the store cannot be read.
pub fn get_all_logs(store: &Store) -> Vec<(i32, String, String, String)> {
    match LogsRepository::get_all(store) {
        Ok(v) => v,
        Err(_) => Vec::new(),
    }
}

/// The log entries of `entries` whose message contains `query`, in order.
pub open spec fn spec_filter_log_entries(
    entries: Seq<(i32, String, String, String)>,
    query: Seq<char>,
) -> Seq<(i32, String, String, String)> {
    entries.filter(|e: (i32, String, String, String)| spec_contains(e.2@, query))
}

/// Keeps exactly the entries whose message contains the query, preserving
/// their order: the filter of the list under message containment.
pub fn filter_log_entries(entries: Vec<(i32, String, String, String)>, query: &str) -> (r: Vec<
    (i32, String, String, String),
>)
    ensures
        r@ == spec_filter_log_entries(entries@, query@),
{
    let ghost orig = entries@;
    let mut remaining = entries;
    let mut out: Vec<(i32, String, String, String)> = Vec::new();
    proof {
        reveal(Seq::<(i32, String, String, String)>::filter);
        assert(orig.take(0) =~= Seq::<(i32, String, String, String)>::empty());
        assert(orig.skip(0) =~= orig);
    }
    while remaining.len() > 0
        invariant
            remaining@.len() <= orig.len(),
            remaining@ == orig.skip(orig.len() - remaining@.len()),
            out@ == spec_filter_log_entries(orig.take(orig.len() - remaining@.len()), query@),
        decreases remaining@.len(),
    {
        let ghost i = orig.len() - remaining@.len();
        let entry = remaining.remove(0);
        proof {
            assert(entry == orig.skip(i as int)[0]);
            assert(entry == orig[i as int]);
            assert(orig.skip(i as int).remove(0) =~= orig.skip(i + 1));
        }
        let matched = contains_str(entry.2.as_str(), query);
        proof {
            reveal(Seq::<(i32, String, String, String)>::filter);
            assert(orig.take(i + 1).drop_last() =~= orig.take(i as int));
            assert(orig.take(i + 1).last() == orig[i as int]);
        }
        if matched {
            out.push(entry);
        }
    }
    proof {
        assert(orig.take(orig.len() as int) =~= orig);
    }
    out
}

/// The recent log entries whose message contains `query`: the matching
/// subsequence of the fetched entries, in their stored order.
pub fn search_logs(store: &Store, query: &str) -> (r: Vec<(i32, String, String, String)>)
    ensures
        forall|i: int| 0 <= i < r@.len() ==> spec_contains((#[trigger] r@[i]).2@, query@),
{
    let all_logs = get_all_logs(store);
    let ghost all = all_logs@;
    let filtered = filter_log_entries(all_logs, query);
    proof {
        broadcast use vstd::seq_lib::group_filter_ensures;

        assert forall|i: int|
            0 <= i < filtered@.len() implies spec_contains((#[trigger] filtered@[i]).2@, query@) by {
            assert(filtered@ == spec_filter_log_entries(all, query@));
        }
    }
    filtered
}

} // verus!
