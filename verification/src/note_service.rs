//! Note service: validation and transformation between the UI and the
//! notes repository. Titles and details must be non-blank; search is
//! case-insensitive over titles and details.

use crate::clock::now_timestamp;
use crate::models::Note;
use crate::notes_repository::NotesRepository;
use crate::store::{feeds_of, items_of, Store};
use crate::text::{contains_str, spec_contains, spec_trim, trim_str};
use vstd::prelude::*;

verus! {

/// What std's lowercasing makes of a string; the result is a function of
/// the characters alone.
pub uninterp spec fn lower_of(s: Seq<char>) -> Seq<char>;

/// Relies on str::to_lowercase: lowercases deterministically in its input.
#[verifier::external_body]
fn lowercase(s: &str) -> (r: String)
    ensures
        r@ == lower_of(s@),
{
    s.to_lowercase()
}

/// A note matches a query when its lowercased title or details contain the
/// lowercased query.
pub open spec fn note_matches_query(n: Note, query: Seq<char>) -> bool {
    spec_contains(lower_of(n.title@), lower_of(query)) || spec_contains(
        lower_of(n.details@),
        lower_of(query),
    )
}

/// The notes of `notes` that match `query`, in order.
pub open spec fn spec_filter_notes(notes: Seq<Note>, query: Seq<char>) -> Seq<Note> {
    notes.filter(|n: Note| note_matches_query(n, query))
}

/// Whether a note's text fields are acceptable: neither blank.
pub open spec fn note_text_valid(title: Seq<char>, details: Seq<char>) -> bool {
    spec_trim(title).len() > 0 && spec_trim(details).len() > 0
}

/// Note service: the business layer between the UI and the notes table.
pub struct NoteService;

impl NoteService {
    /// Creates a note after validating that neither the title nor the
    /// details are blank; each rejection names the offending field.
    pub fn create_note(store: &mut Store, title: &str, details: &str) -> (r: Result<(), String>)
        ensures
            feeds_of(*final(store)) == feeds_of(*old(store)),
            items_of(*final(store)) == items_of(*old(store)),
            spec_trim(title@).len() == 0 ==> (r matches Err(m) && m@ == "Note title cannot be empty"@)
                && *final(store) == *old(store),
            spec_trim(title@).len() > 0 && spec_trim(details@).len() == 0 ==> (r matches Err(m)
                && m@ == "Note details cannot be empty"@) && *final(store) == *old(store),
    {
        if trim_str(title).as_str().unicode_len() == 0 {
            return Err(String::from_str("Note title cannot be empty"));
        }
        if trim_str(details).as_str().unicode_len() == 0 {
            return Err(String::from_str("Note details cannot be empty"));
        }
        let now = now_timestamp();
        NotesRepository::create(store, title, details, now)
    }

    /// Deletes a note by id.
    pub fn delete_note(store: &mut Store, note_id: i32) -> (r: Result<(), String>)
        ensures
            feeds_of(*final(store)) == feeds_of(*old(store)),
            items_of(*final(store)) == items_of(*old(store)),
    {
        NotesRepository::delete(store, note_id)
    }

    /// All notes as domain models, most recently created first.
    pub fn get_all_notes(store: &Store) -> (r: Result<Vec<Note>, String>) {
        let raw = match NotesRepository::get_all(store) {
            Ok(v) => v,
            Err(e) => {
                return Err(e);
            },
        };
        let mut notes: Vec<Note> = Vec::new();
        let mut i: usize = 0;
        while i < raw.len()
            invariant
                i <= raw@.len(),
            decreases raw@.len() - i,
        {
            let row = &raw[i];
            notes.push(Note::new(row.0, row.1.clone(), row.2.clone(), row.3, row.4));
            i = i + 1;
        }
        Ok(notes)
    }

    /// Keeps exactly the notes that match the query, in their given order:
    /// the filter of the list under [`note_matches_query`].
    pub fn filter_notes(notes: Vec<Note>, query: &str) -> (r: Vec<Note>)
        ensures
            r@ == spec_filter_notes(notes@, query@),
    {
        let ghost orig = notes@;
        let query_lower = lowercase(query);
        let mut remaining = notes;
        let mut out: Vec<Note> = Vec::new();
        proof {
            reveal(Seq::<Note>::filter);
            assert(orig.take(0) =~= Seq::<Note>::empty());
            assert(orig.skip(0) =~= orig);
        }
        while remaining.len() > 0
            invariant
                query_lower@ == lower_of(query@),
                remaining@.len() <= orig.len(),
                remaining@ == orig.skip(orig.len() - remaining@.len()),
                out@ == spec_filter_notes(
                    orig.take(orig.len() - remaining@.len()),
                    query@,
                ),
            decreases remaining@.len(),
        {
            let ghost i = orig.len() - remaining@.len();
            let note = remaining.remove(0);
            proof {
                assert(note == orig.skip(i as int)[0]);
                assert(note == orig[i as int]);
                assert(orig.skip(i as int).remove(0) =~= orig.skip(i + 1));
            }
            let title_lower = lowercase(note.title.as_str());
            let details_lower = lowercase(note.details.as_str());
            let matched = contains_str(title_lower.as_str(), query_lower.as_str())
                || contains_str(details_lower.as_str(), query_lower.as_str());
            proof {
                assert(matched == note_matches_query(note, query@));
                reveal(Seq::<Note>::filter);
                assert(orig.take(i + 1).drop_last() =~= orig.take(i as int));
                assert(orig.take(i + 1).last() == orig[i as int]);
            }
            if matched {
                out.push(note);
            }
        }
        proof {
            assert(orig.take(orig.len() as int) =~= orig);
        }
        out
    }

    /// The notes whose title or details contain the query, comparing
    /// case-insensitively: the matching subsequence of the loaded notes, in
    /// their stored order.
    pub fn search_notes(store: &Store, query: &str) -> (r: Result<Vec<Note>, String>)
        ensures
            r matches Ok(v) ==> forall|i: int|
                0 <= i < v@.len() ==> note_matches_query(#[trigger] v@[i], query@),
    {
        let all_notes = match Self::get_all_notes(store) {
            Ok(v) => v,
            Err(e) => {
                return Err(e);
            },
        };
        let ghost all = all_notes@;
        let filtered = Self::filter_notes(all_notes, query);
        proof {
            broadcast use vstd::seq_lib::group_filter_ensures;

            assert forall|i: int|
                0 <= i < filtered@.len() implies note_matches_query(
                #[trigger] filtered@[i],
                query@,
            ) by {
                assert(filtered@ == spec_filter_notes(all, query@));
            }
        }
        Ok(filtered)
    }

    /// The note with the given id.
    pub fn get_note_by_id(store: &Store, note_id: i32) -> (r: Result<Note, String>)
        ensures
            r matches Ok(n) ==> n.id == note_id,
    {
        match NotesRepository::get_by_id(store, note_id) {
            Ok(row) => Ok(Note::new(row.0, row.1, row.2, row.3, row.4)),
            Err(e) => Err(e),
        }
    }

    /// Rewrites a note after the same validation as creation.
    pub fn update_note(store: &mut Store, note_id: i32, title: &str, details: &str) -> (r: Result<
        (),
        String,
    >)
        ensures
            feeds_of(*final(store)) == feeds_of(*old(store)),
            items_of(*final(store)) == items_of(*old(store)),
            spec_trim(title@).len() == 0 ==> (r matches Err(m) && m@ == "Note title cannot be empty"@)
                && *final(store) == *old(store),
            spec_trim(title@).len() > 0 && spec_trim(details@).len() == 0 ==> (r matches Err(m)
                && m@ == "Note details cannot be empty"@) && *final(store) == *old(store),
    {
        if trim_str(title).as_str().unicode_len() == 0 {
            return Err(String::from_str("Note title cannot be empty"));
        }
        if trim_str(details).as_str().unicode_len() == 0 {
            return Err(String::from_str("Note details cannot be empty"));
        }
        let now = now_timestamp();
        NotesRepository::update(store, note_id, title, details, now)
    }
}

} // verus!
