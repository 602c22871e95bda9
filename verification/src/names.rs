//! How note files are named inside `notes/`.

use vstd::prelude::*;
use crate::text::{decimal, decimal_string, same_text};

verus! {

/// The extension every note file carries, with its dot.
pub open spec fn extension() -> Seq<char> {
    seq!['.', 'd', 'j', 'o', 't']
}

/// The title a note has until its author gives it one.
pub open spec fn placeholder_title() -> Seq<char> {
    seq!['U', 'n', 'n', 'a', 'm', 'e', 'd', ' ', 'N', 'o', 't', 'e']
}

/// What parts a slug from what follows it in a file name.
pub open spec fn separator() -> Seq<char> {
    seq!['_']
}

/// The file name made of `stem` and the note extension.
pub open spec fn note_filename(stem: Seq<char>) -> Seq<char> {
    stem + extension()
}

/// The file name `<slug>_<tail>` with the note extension.
pub open spec fn suffixed_name(slug: Seq<char>, tail: Seq<char>) -> Seq<char> {
    note_filename(slug + separator() + tail)
}

/// The name tried for a slug at probe `k`: the bare slug at 0, then
/// `<slug>_<k>`.
pub open spec fn candidate_name(slug: Seq<char>, k: nat) -> Seq<char> {
    if k == 0 {
        note_filename(slug)
    } else {
        suffixed_name(slug, decimal(k))
    }
}

/// The name that ends every search: `<slug>_<id>`.
pub open spec fn backstop_name(slug: Seq<char>, id: Seq<char>) -> Seq<char> {
    suffixed_name(slug, id)
}

/// A note is default-named while its file is still called `<id>` plus the
/// extension.
pub open spec fn is_default_named(id: Seq<char>, filename: Seq<char>) -> bool {
    filename == note_filename(id)
}

/// The last probe that carries a number.
pub const LAST_PROBE: u8 = 25;

/// `stem` followed by the note extension.
pub fn filename_of(stem: &str) -> (name: String)
    ensures
        name@ == note_filename(stem@),
{
    proof {
        reveal_strlit(".djot");
    }
    let mut name: String = String::from_str(stem);
    name.append(".djot");
    assert(name@ =~= note_filename(stem@));
    name
}

/// `<slug>_<tail>` followed by the note extension.
pub fn suffixed_filename(slug: &str, tail: &str) -> (name: String)
    ensures
        name@ == suffixed_name(slug@, tail@),
{
    proof {
        reveal_strlit("_");
        reveal_strlit(".djot");
    }
    let mut name: String = String::from_str(slug);
    name.append("_");
    name.append(tail);
    name.append(".djot");
    assert(name@ =~= suffixed_name(slug@, tail@));
    name
}

/// The name to try for `slug` at probe `k`.
pub fn candidate_filename(slug: &str, k: u8) -> (name: String)
    ensures
        name@ == candidate_name(slug@, k as nat),
{
    if k == 0 {
        filename_of(slug)
    } else {
        let number: String = decimal_string(k as u64);
        suffixed_filename(slug, number.as_str())
    }
}

/// Whether `title` is still the placeholder.
pub fn is_placeholder(title: &str) -> (held: bool)
    ensures
        held == (title@ == placeholder_title()),
{
    proof {
        reveal_strlit("Unnamed Note");
        assert("Unnamed Note"@ =~= placeholder_title());
    }
    same_text(title, "Unnamed Note")
}

/// Whether `filename` is the name a note with this id is created under.
pub fn has_default_name(id: &str, filename: &str) -> (held: bool)
    ensures
        held == is_default_named(id@, filename@),
{
    let default: String = filename_of(id);
    same_text(filename, default.as_str())
}

} // verus!
