//! Which name a note's file gets when the note is saved.
//!
//! The directory is modelled by the set of names taken in it. A note that
//! still has its default name and has been given a title looks for a free
//! name: the bare slug, then the slug with the numbers 1 to 25, then the
//! slug with the note's id. A note that already has a chosen name moves to
//! the bare slug if that is another name and free, and stays put otherwise.

use vstd::prelude::*;
use crate::names::{
    backstop_name, candidate_name, is_default_named, note_filename, placeholder_title, separator,
};
use crate::platform::is_id_char;
use crate::slug::is_filename_char;
use crate::text::decimal;

verus! {

/// Whether a save searches for a free name: the file still has the
/// default name and the title is no longer the placeholder.
pub open spec fn seeks_fresh_name(id: Seq<char>, title: Seq<char>, current: Seq<char>) -> bool {
    title != placeholder_title() && is_default_named(id, current)
}

/// The first candidate from probe `k` on that is not taken, or the
/// backstop when probes `k` to 25 are all taken.
pub open spec fn first_free(slug: Seq<char>, id: Seq<char>, taken: Set<Seq<char>>, k: nat) -> Seq<
    char,
>
    decreases 26 - k,
{
    if k > 25 {
        backstop_name(slug, id)
    } else if !taken.contains(candidate_name(slug, k)) {
        candidate_name(slug, k)
    } else {
        first_free(slug, id, taken, k + 1)
    }
}

/// Where a note with a chosen name goes: to the bare slug if that is a
/// different and free name, else nowhere.
pub open spec fn retitled_name(slug: Seq<char>, current: Seq<char>, taken: Set<Seq<char>>) -> Seq<
    char,
> {
    if note_filename(slug) != current && !taken.contains(note_filename(slug)) {
        note_filename(slug)
    } else {
        current
    }
}

/// The file name a save resolves to.
pub open spec fn resolved_name(
    id: Seq<char>,
    slug: Seq<char>,
    title: Seq<char>,
    current: Seq<char>,
    taken: Set<Seq<char>>,
) -> Seq<char> {
    if seeks_fresh_name(id, title, current) {
        first_free(slug, id, taken, 0)
    } else {
        retitled_name(slug, current, taken)
    }
}

/// All candidates from probe `k` to 25 are taken.
pub open spec fn all_taken_from(slug: Seq<char>, taken: Set<Seq<char>>, k: nat) -> bool {
    forall|j: nat| k <= j <= 25 ==> taken.contains(#[trigger] candidate_name(slug, j))
}

/// The search from probe `k` ends in one of two ways. Either some probe
/// `j` between `k` and 25 is free while all before it are taken, and the
/// result is that candidate; or all of them are taken and the result is
/// the backstop.
pub proof fn lemma_first_free_is_first(
    slug: Seq<char>,
    id: Seq<char>,
    taken: Set<Seq<char>>,
    k: nat,
)
    requires
        k <= 26,
    ensures
        all_taken_from(slug, taken, k) ==> first_free(slug, id, taken, k) == backstop_name(
            slug,
            id,
        ),
        !all_taken_from(slug, taken, k) ==> exists|j: nat|
            {
                &&& k <= j <= 25
                &&& !taken.contains(#[trigger] candidate_name(slug, j))
                &&& first_free(slug, id, taken, k) == candidate_name(slug, j)
                &&& forall|i: nat| k <= i < j ==> taken.contains(#[trigger] candidate_name(slug, i))
            },
    decreases 26 - k,
{
    if k > 25 {
    } else if !taken.contains(candidate_name(slug, k)) {
        assert(!all_taken_from(slug, taken, k));
    } else {
        lemma_first_free_is_first(slug, id, taken, k + 1);
        if all_taken_from(slug, taken, k + 1) {
            assert forall|j: nat| k <= j <= 25 implies taken.contains(
                #[trigger] candidate_name(slug, j),
            ) by {
                if j > k {
                    assert(k + 1 <= j);
                }
            }
        } else {
            let j = choose|j: nat|
                {
                    &&& k + 1 <= j <= 25
                    &&& !taken.contains(#[trigger] candidate_name(slug, j))
                    &&& first_free(slug, id, taken, k + 1) == candidate_name(slug, j)
                    &&& forall|i: nat|
                        k + 1 <= i < j ==> taken.contains(#[trigger] candidate_name(slug, i))
                };
            assert(k <= j <= 25);
            assert forall|i: nat| k <= i < j implies taken.contains(
                #[trigger] candidate_name(slug, i),
            ) by {
                if i > k {
                    assert(k + 1 <= i);
                }
            }
        }
    }
}

/// A default-named note that has been given a title never lands on a
/// taken name, as long as its backstop `<slug>_<id>` is not taken.
pub proof fn lemma_fresh_name_is_free(
    id: Seq<char>,
    slug: Seq<char>,
    title: Seq<char>,
    current: Seq<char>,
    taken: Set<Seq<char>>,
)
    requires
        seeks_fresh_name(id, title, current),
        !taken.contains(backstop_name(slug, id)),
    ensures
        !taken.contains(resolved_name(id, slug, title, current, taken)),
{
    lemma_first_free_is_first(slug, id, taken, 0);
}

/// Once the bare slug and its 25 numbered names are taken, every further
/// default-named note with that slug gets the backstop `<slug>_<id>`.
pub proof fn lemma_crowded_slug_uses_backstop(
    id: Seq<char>,
    slug: Seq<char>,
    title: Seq<char>,
    current: Seq<char>,
    taken: Set<Seq<char>>,
)
    requires
        seeks_fresh_name(id, title, current),
        all_taken_from(slug, taken, 0),
    ensures
        resolved_name(id, slug, title, current, taken) == backstop_name(slug, id),
{
    lemma_first_free_is_first(slug, id, taken, 0);
}

/// A note with a chosen name either keeps it or moves to the bare slug,
/// and it moves only to a free name.
pub proof fn lemma_retitled_note_moves_only_to_free_slug(
    id: Seq<char>,
    slug: Seq<char>,
    title: Seq<char>,
    current: Seq<char>,
    taken: Set<Seq<char>>,
)
    requires
        !seeks_fresh_name(id, title, current),
    ensures
        ({
            let name = resolved_name(id, slug, title, current, taken);
            &&& name == current || name == note_filename(slug)
            &&& name != current ==> !taken.contains(name)
            &&& taken.contains(note_filename(slug)) ==> name == current
        }),
{
}

/// A stem of characters that are all safe in a file name.
pub open spec fn is_safe_stem(stem: Seq<char>) -> bool {
    forall|i: int| 0 <= i < stem.len() ==> is_filename_char(#[trigger] stem[i])
}

/// A file name made of a safe stem and the note extension.
pub open spec fn is_safe_filename(name: Seq<char>) -> bool {
    exists|stem: Seq<char>| is_safe_stem(stem) && name == #[trigger] note_filename(stem)
}

/// An id of lower-case letters and digits, as new ids are, is a safe
/// stem.
pub proof fn lemma_id_is_safe(id: Seq<char>)
    requires
        forall|i: int| 0 <= i < id.len() ==> is_id_char(#[trigger] id[i]),
    ensures
        is_safe_stem(id),
{
}

/// A numeral holds digits only.
pub proof fn lemma_decimal_is_safe(n: nat)
    ensures
        is_safe_stem(decimal(n)),
    decreases n,
{
    if n >= 10 {
        lemma_decimal_is_safe(n / 10);
    }
}

/// A safe slug, the separator and a safe tail make a safe stem.
pub proof fn lemma_suffixed_stem_is_safe(slug: Seq<char>, tail: Seq<char>)
    requires
        is_safe_stem(slug),
        is_safe_stem(tail),
    ensures
        is_safe_stem(slug + separator() + tail),
{
    let stem = slug + separator() + tail;
    assert forall|i: int| 0 <= i < stem.len() implies is_filename_char(#[trigger] stem[i]) by {
        if i < slug.len() {
            assert(stem[i] == slug[i]);
        } else if i == slug.len() {
            assert(stem[i] == '_');
        } else {
            assert(stem[i] == tail[i - slug.len() - 1]);
        }
    }
}

/// The name a default-named note is saved under holds only characters
/// that are safe in a file name, before the note extension, where the
/// slug and the note's id hold only such characters.
pub proof fn lemma_fresh_name_is_filename_safe(
    id: Seq<char>,
    slug: Seq<char>,
    title: Seq<char>,
    current: Seq<char>,
    taken: Set<Seq<char>>,
)
    requires
        seeks_fresh_name(id, title, current),
        is_safe_stem(slug),
        is_safe_stem(id),
    ensures
        is_safe_filename(resolved_name(id, slug, title, current, taken)),
{
    let name = resolved_name(id, slug, title, current, taken);
    lemma_first_free_is_first(slug, id, taken, 0);
    if all_taken_from(slug, taken, 0) {
        lemma_suffixed_stem_is_safe(slug, id);
        assert(name == note_filename(slug + separator() + id));
    } else {
        let j = choose|j: nat| j <= 25 && name == #[trigger] candidate_name(slug, j);
        if j == 0 {
            assert(name == note_filename(slug));
        } else {
            lemma_decimal_is_safe(j);
            lemma_suffixed_stem_is_safe(slug, decimal(j));
            assert(name == note_filename(slug + separator() + decimal(j)));
        }
    }
}

/// A note with a chosen name that moves, moves to a name that holds
/// only characters safe in a file name, where the slug holds only such
/// characters.
pub proof fn lemma_moved_name_is_filename_safe(
    id: Seq<char>,
    slug: Seq<char>,
    title: Seq<char>,
    current: Seq<char>,
    taken: Set<Seq<char>>,
)
    requires
        !seeks_fresh_name(id, title, current),
        is_safe_stem(slug),
    ensures
        resolved_name(id, slug, title, current, taken) == current || is_safe_filename(
            resolved_name(id, slug, title, current, taken),
        ),
{
    if resolved_name(id, slug, title, current, taken) != current {
        assert(resolved_name(id, slug, title, current, taken) == note_filename(slug));
    }
}

} // verus!
