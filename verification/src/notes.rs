//! Note paths and note selection.
//!
//! A note titled `t` in category `c` lives at `c/t.txt`. Listing a category
//! prints its entries with one-based indices and then reads one selection
//! token; this module builds the path and resolves the selection.

use crate::numerals::parse_u32;
use crate::numerals::spec_parse_u32;
use vstd::prelude::*;

verus! {

/// The path of a note: `<category>/<title>.txt`.
pub open spec fn spec_note_path(title: Seq<char>, category: Seq<char>) -> Seq<char> {
    category + "/"@ + title + ".txt"@
}

/// Builds the path under which a note of the given title and category is
/// stored.
pub fn note_path(title: &str, category: &str) -> (r: String)
    ensures
        r@ == spec_note_path(title@, category@),
{
    let mut s = category.to_owned();
    s.append("/");
    s.append(title);
    s.append(".txt");
    proof {
        assert(s@ =~= spec_note_path(title@, category@));
    }
    s
}

/// What the journal does with one selection token read after a listing.
#[derive(PartialEq, Eq, Structural, Debug)]
pub enum NoteSelection {
    /// Open the note at this zero-based position of the listing.
    Open(usize),
    /// The token denoted a number outside the listing: silently do nothing.
    OutOfRange,
    /// The token denoted no number: report invalid input.
    InvalidInput,
}

/// The meaning of a selection token against a listing of `n_entries` notes
/// printed with one-based indices: the number `k` with `1 <= k <= n_entries`
/// selects the entry that was enumerated at position `k - 1`.
pub open spec fn spec_choose_note(n_entries: usize, input: Seq<char>) -> NoteSelection {
    match spec_parse_u32(input) {
        Some(k) => if 1 <= k && k as int <= n_entries as int {
            NoteSelection::Open((k - 1) as usize)
        } else {
            NoteSelection::OutOfRange
        },
        None => NoteSelection::InvalidInput,
    }
}

/// Resolves a selection token against the number of listed notes.
pub fn choose_note(n_entries: usize, input: &str) -> (r: NoteSelection)
    ensures
        r == spec_choose_note(n_entries, input@),
{
    match parse_u32(input) {
        Some(k) => {
            if k >= 1 && (k as usize) <= n_entries {
                NoteSelection::Open((k - 1) as usize)
            } else {
                NoteSelection::OutOfRange
            }
        },
        None => NoteSelection::InvalidInput,
    }
}

/// The message reported when a listed category does not exist.
pub fn missing_category_message(category: &str) -> (r: String)
    ensures
        r@ == category@ + " is not an existing category"@,
{
    let mut s = category.to_owned();
    s.append(" is not an existing category");
    s
}

} // verus!
