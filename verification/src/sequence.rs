//! Many notes saved one after another under the same slug.
//!
//! The directory is a set of names. Saving a default-named note that has
//! been given a title moves its file from `<id>` plus the extension to
//! the first free name for the slug.

use vstd::prelude::*;
use crate::names::{backstop_name, candidate_name, note_filename, separator, suffixed_name};
use crate::platform::is_lower_letter;
use crate::rename::{all_taken_from, first_free, lemma_first_free_is_first};
use crate::text::decimal;

verus! {

/// The directory after the note `id` was saved under `slug`: its file
/// left the default name for the first free one.
pub open spec fn directory_after_save(slug: Seq<char>, id: Seq<char>, taken: Set<Seq<char>>) -> Set<
    Seq<char>,
> {
    taken.remove(note_filename(id)).insert(first_free(slug, id, taken, 0))
}

/// The directory after the notes `ids` were saved under `slug`, in order.
pub open spec fn directory_after(slug: Seq<char>, ids: Seq<Seq<char>>, taken: Set<Seq<char>>) -> Set<
    Seq<char>,
>
    decreases ids.len(),
{
    if ids.len() == 0 {
        taken
    } else {
        directory_after_save(slug, ids.last(), directory_after(slug, ids.drop_last(), taken))
    }
}

/// The name that note `k` of `ids` gets when the notes are saved in
/// order, starting from the directory `taken`.
pub open spec fn name_in_turn(
    slug: Seq<char>,
    ids: Seq<Seq<char>>,
    taken: Set<Seq<char>>,
    k: int,
) -> Seq<char> {
    first_free(slug, ids[k], directory_after(slug, ids.take(k), taken), 0)
}

/// No two of the ids are the same.
pub open spec fn distinct(ids: Seq<Seq<char>>) -> bool {
    forall|i: int, j: int| 0 <= i < j < ids.len() ==> ids[i] != ids[j]
}

/// No backstop of these ids reads like one of the slug's candidates.
pub open spec fn backstops_are_no_candidates(slug: Seq<char>, ids: Seq<Seq<char>>) -> bool {
    forall|i: int, j: nat|
        0 <= i < ids.len() && j <= 25 ==> #[trigger] backstop_name(slug, ids[i])
            != #[trigger] candidate_name(slug, j)
}

/// No default name of these ids reads like one of the slug's candidates.
pub open spec fn defaults_are_no_candidates(slug: Seq<char>, ids: Seq<Seq<char>>) -> bool {
    forall|i: int, j: nat|
        0 <= i < ids.len() && j <= 25 ==> #[trigger] note_filename(ids[i]) != #[trigger] candidate_name(
            slug,
            j,
        )
}

/// Two stems with the same file name are the same stem.
pub proof fn lemma_note_filename_injective(a: Seq<char>, b: Seq<char>)
    requires
        note_filename(a) == note_filename(b),
    ensures
        a == b,
{
    assert(note_filename(a).len() == a.len() + 5);
    assert(note_filename(b).len() == b.len() + 5);
    assert(a =~= note_filename(a).subrange(0, a.len() as int));
    assert(b =~= note_filename(b).subrange(0, b.len() as int));
}

/// Two tails that give the same suffixed name for a slug are the same
/// tail.
pub proof fn lemma_suffixed_name_injective(slug: Seq<char>, a: Seq<char>, b: Seq<char>)
    requires
        suffixed_name(slug, a) == suffixed_name(slug, b),
    ensures
        a == b,
{
    lemma_note_filename_injective(slug + separator() + a, slug + separator() + b);
    let x = slug + separator() + a;
    let y = slug + separator() + b;
    assert(a =~= x.subrange(slug.len() as int + 1, x.len() as int));
    assert(b =~= y.subrange(slug.len() as int + 1, y.len() as int));
}

/// A numeral begins with a digit.
pub proof fn lemma_decimal_begins_with_digit(n: nat)
    ensures
        decimal(n).len() > 0,
        '0' <= decimal(n)[0] <= '9',
    decreases n,
{
    if n >= 10 {
        lemma_decimal_begins_with_digit(n / 10);
    }
}

/// The backstop of an id that begins with a letter reads like none of
/// the slug's candidates: not like the bare slug, which goes on with a
/// dot where the backstop has the separator, and not like a numbered
/// name, whose tail begins with a digit.
pub proof fn lemma_lettered_id_is_no_candidate(slug: Seq<char>, id: Seq<char>, j: nat)
    requires
        id.len() > 0,
        is_lower_letter(id[0]),
    ensures
        backstop_name(slug, id) != candidate_name(slug, j),
{
    if j == 0 {
        assert(backstop_name(slug, id)[slug.len() as int] == '_');
        assert(note_filename(slug)[slug.len() as int] == '.');
    } else {
        lemma_decimal_begins_with_digit(j);
        if backstop_name(slug, id) == candidate_name(slug, j) {
            lemma_suffixed_name_injective(slug, id, decimal(j));
        }
    }
}

/// Saving one more note after `ids.take(k)` is saving `ids.take(k + 1)`.
proof fn lemma_directory_step(slug: Seq<char>, ids: Seq<Seq<char>>, taken: Set<Seq<char>>, k: int)
    requires
        0 <= k < ids.len(),
    ensures
        directory_after(slug, ids.take(k + 1), taken) == directory_after_save(
            slug,
            ids[k],
            directory_after(slug, ids.take(k), taken),
        ),
        directory_after(slug, ids.take(k + 1), taken) == directory_after(
            slug,
            ids.take(k),
            taken,
        ).remove(note_filename(ids[k])).insert(name_in_turn(slug, ids, taken, k)),
{
    assert(ids.take(k + 1).drop_last() =~= ids.take(k));
    assert(ids.take(k + 1).last() == ids[k]);
}

/// What holds of the directory before note `k` is saved: the names given
/// so far are in it, differ from each other and from every default name
/// still to be left; the backstops and the default names of the notes
/// still to be saved are as they were at the start.
proof fn lemma_saves_keep_apart(
    slug: Seq<char>,
    ids: Seq<Seq<char>>,
    taken: Set<Seq<char>>,
    k: int,
)
    requires
        0 <= k <= ids.len(),
        distinct(ids),
        backstops_are_no_candidates(slug, ids),
        forall|i: int| 0 <= i < ids.len() ==> taken.contains(#[trigger] note_filename(ids[i])),
        forall|i: int| 0 <= i < ids.len() ==> !taken.contains(#[trigger] backstop_name(slug, ids[i])),
    ensures
        forall|j: int|
            0 <= j < k ==> directory_after(slug, ids.take(k), taken).contains(
                #[trigger] name_in_turn(slug, ids, taken, j),
            ),
        forall|i: int, j: int|
            0 <= i < j < k ==> #[trigger] name_in_turn(slug, ids, taken, i) != #[trigger] name_in_turn(
                slug,
                ids,
                taken,
                j,
            ),
        forall|j: int, i: int|
            0 <= j < k <= i < ids.len() ==> #[trigger] name_in_turn(slug, ids, taken, j)
                != #[trigger] note_filename(ids[i]),
        forall|i: int|
            k <= i < ids.len() ==> !directory_after(slug, ids.take(k), taken).contains(
                #[trigger] backstop_name(slug, ids[i]),
            ),
        forall|i: int|
            k <= i < ids.len() ==> directory_after(slug, ids.take(k), taken).contains(
                #[trigger] note_filename(ids[i]),
            ),
        forall|j: int|
            0 <= j < k ==> !directory_after(slug, ids.take(j), taken).contains(
                #[trigger] name_in_turn(slug, ids, taken, j),
            ),
    decreases k,
{
    if k == 0 {
        assert(ids.take(0) =~= Seq::<Seq<char>>::empty());
    } else {
        let m = k - 1;
        lemma_saves_keep_apart(slug, ids, taken, m);
        lemma_directory_step(slug, ids, taken, m);
        let before = directory_after(slug, ids.take(m), taken);
        let after = directory_after(slug, ids.take(k), taken);
        let name = name_in_turn(slug, ids, taken, m);
        let left = note_filename(ids[m]);
        assert(after == before.remove(left).insert(name));
        // the new name is free, and is a candidate or this note's backstop
        lemma_first_free_is_first(slug, ids[m], before, 0);
        assert(!before.contains(backstop_name(slug, ids[m])));
        assert(!before.contains(name));
        assert forall|j: int| 0 <= j < k implies after.contains(
            #[trigger] name_in_turn(slug, ids, taken, j),
        ) by {
            if j < m {
                assert(name_in_turn(slug, ids, taken, j) != note_filename(ids[m]));
            }
        }
        assert forall|i: int, j: int| 0 <= i < j < k implies #[trigger] name_in_turn(
            slug,
            ids,
            taken,
            i,
        ) != #[trigger] name_in_turn(slug, ids, taken, j) by {
            if j == m {
                assert(before.contains(name_in_turn(slug, ids, taken, i)));
            }
        }
        assert forall|j: int, i: int| 0 <= j < k <= i < ids.len() implies #[trigger] name_in_turn(
            slug,
            ids,
            taken,
            j,
        ) != #[trigger] note_filename(ids[i]) by {
            if j == m {
                assert(before.contains(note_filename(ids[i])));
            }
        }
        assert forall|i: int| k <= i < ids.len() implies !after.contains(
            #[trigger] backstop_name(slug, ids[i]),
        ) by {
            assert(!before.contains(backstop_name(slug, ids[i])));
            if backstop_name(slug, ids[i]) == name {
                if all_taken_from(slug, before, 0) {
                    lemma_suffixed_name_injective(slug, ids[i], ids[m]);
                    assert(ids[m] != ids[i]);
                } else {
                    let c = choose|c: nat|
                        c <= 25 && name == #[trigger] candidate_name(slug, c) && !before.contains(
                            candidate_name(slug, c),
                        );
                    assert(backstop_name(slug, ids[i]) != candidate_name(slug, c));
                }
            }
        }
        assert forall|i: int| k <= i < ids.len() implies after.contains(
            #[trigger] note_filename(ids[i]),
        ) by {
            assert(before.contains(note_filename(ids[i])));
            if note_filename(ids[i]) == left {
                lemma_note_filename_injective(ids[i], ids[m]);
                assert(ids[m] != ids[i]);
            }
        }
    }
}

/// Saved one after another under the same slug, default-named notes with
/// a title never collide: each gets a name that is free when its turn
/// comes, and no two get the same name. This is stated of notes whose
/// ids differ, whose files lie under their default names, and whose
/// backstops are not taken at the start and read like no candidate of
/// the slug.
pub proof fn lemma_saves_never_collide(slug: Seq<char>, ids: Seq<Seq<char>>, taken: Set<Seq<char>>)
    requires
        distinct(ids),
        backstops_are_no_candidates(slug, ids),
        forall|i: int| 0 <= i < ids.len() ==> taken.contains(#[trigger] note_filename(ids[i])),
        forall|i: int| 0 <= i < ids.len() ==> !taken.contains(#[trigger] backstop_name(slug, ids[i])),
    ensures
        forall|k: int|
            0 <= k < ids.len() ==> !directory_after(slug, ids.take(k), taken).contains(
                #[trigger] name_in_turn(slug, ids, taken, k),
            ),
        forall|i: int, j: int|
            0 <= i < j < ids.len() ==> #[trigger] name_in_turn(slug, ids, taken, i)
                != #[trigger] name_in_turn(slug, ids, taken, j),
{
    lemma_saves_keep_apart(slug, ids, taken, ids.len() as int);
}

/// Ids that begin with a letter, as new ids do, have backstops that read
/// like no candidate.
pub proof fn lemma_lettered_ids_are_no_candidates(slug: Seq<char>, ids: Seq<Seq<char>>)
    requires
        forall|i: int| 0 <= i < ids.len() ==> (#[trigger] ids[i]).len() > 0 && is_lower_letter(ids[i][0]),
    ensures
        backstops_are_no_candidates(slug, ids),
{
    assert forall|i: int, j: nat| 0 <= i < ids.len() && j <= 25 implies #[trigger] backstop_name(
        slug,
        ids[i],
    ) != #[trigger] candidate_name(slug, j) by {
        lemma_lettered_id_is_no_candidate(slug, ids[i], j);
    }
}

/// Before note `k` is saved, the first `k` candidates of the slug are
/// taken, up to all 26 of them.
proof fn lemma_candidates_fill_up(
    slug: Seq<char>,
    ids: Seq<Seq<char>>,
    taken: Set<Seq<char>>,
    k: int,
)
    requires
        0 <= k <= ids.len(),
        defaults_are_no_candidates(slug, ids),
    ensures
        forall|j: nat|
            j < k && j <= 25 ==> directory_after(slug, ids.take(k), taken).contains(
                #[trigger] candidate_name(slug, j),
            ),
    decreases k,
{
    if k == 0 {
    } else {
        let m = k - 1;
        lemma_candidates_fill_up(slug, ids, taken, m);
        lemma_directory_step(slug, ids, taken, m);
        let before = directory_after(slug, ids.take(m), taken);
        let after = directory_after(slug, ids.take(k), taken);
        let name = name_in_turn(slug, ids, taken, m);
        lemma_first_free_is_first(slug, ids[m], before, 0);
        assert forall|j: nat| j < k && j <= 25 implies after.contains(
            #[trigger] candidate_name(slug, j),
        ) by {
            assert(candidate_name(slug, j) != note_filename(ids[m]));
            if j == m && !before.contains(candidate_name(slug, j)) {
                // all candidates before `j` are taken and `j` is free: it is the choice
                let c = choose|c: nat|
                    {
                        &&& c <= 25
                        &&& !before.contains(#[trigger] candidate_name(slug, c))
                        &&& name == candidate_name(slug, c)
                        &&& forall|i: nat| i < c ==> before.contains(#[trigger] candidate_name(slug, i))
                    };
                if c < j {
                    assert(before.contains(candidate_name(slug, c)));
                }
                if j < c {
                    assert(before.contains(candidate_name(slug, j)));
                }
                assert(c == j);
            }
        }
    }
}

/// Of notes saved one after another under the same slug, every one from
/// the 27th on gets its backstop `<slug>_<id>`: the bare slug and its 25
/// numbered names are taken by then. This is stated of notes whose
/// default names read like no candidate of the slug, so that no save
/// frees a candidate.
pub proof fn lemma_late_saves_use_backstop(
    slug: Seq<char>,
    ids: Seq<Seq<char>>,
    taken: Set<Seq<char>>,
)
    requires
        defaults_are_no_candidates(slug, ids),
    ensures
        forall|k: int|
            26 <= k < ids.len() ==> #[trigger] name_in_turn(slug, ids, taken, k) == backstop_name(
                slug,
                ids[k],
            ),
{
    assert forall|k: int| 26 <= k < ids.len() implies #[trigger] name_in_turn(slug, ids, taken, k)
        == backstop_name(slug, ids[k]) by {
        lemma_candidates_fill_up(slug, ids, taken, k);
        let before = directory_after(slug, ids.take(k), taken);
        assert(all_taken_from(slug, before, 0));
        lemma_first_free_is_first(slug, ids[k], before, 0);
    }
}

} // verus!
