//! Slugs: the file-name-safe form of a note's title.

use vstd::prelude::*;

verus! {

/// What `slugify::slugify` returns for these four arguments.
pub uninterp spec fn slugify_text(
    text: Seq<char>,
    stop_words: Seq<char>,
    sep: Seq<char>,
    max_length: Option<usize>,
) -> Seq<char>;

/// A character that can stand in a slug cut with the separator `sep`:
/// a lower-case ASCII letter, a digit, or the separator itself.
pub open spec fn is_slug_char(c: char, sep: char) -> bool {
    ||| 'a' <= c <= 'z'
    ||| '0' <= c <= '9'
    ||| c == sep
}

/// The slug of a title, as file names use it.
pub open spec fn slug_of(title: Seq<char>) -> Seq<char> {
    slugify_text(title, Seq::<char>::empty(), seq!['_'], None)
}

/// A character that a note's file name may hold without harm on any of
/// the supported platforms.
pub open spec fn is_filename_char(c: char) -> bool {
    is_slug_char(c, '_')
}

/// Calls `slugify::slugify`. The result is a function of the four
/// arguments alone, named `slugify_text`. The crate builds it byte by
/// byte out of `a`-`z`, `0`-`9` and the first character of `sep`, which
/// is all that is claimed of its contents. It indexes the first character
/// of `sep` and turns it into a byte of the result, so `sep` must begin
/// with an ASCII character.
#[verifier::external_body]
fn slugify_call(text: &str, stop_words: &str, sep: &str, max_length: Option<usize>) -> (slug:
    String)
    requires
        sep@.len() > 0,
        (sep@[0] as u32) < 128,
    ensures
        slug@ == slugify_text(text@, stop_words@, sep@, max_length),
        forall|i: int| 0 <= i < slug@.len() ==> is_slug_char(#[trigger] slug@[i], sep@[0]),
{
    slugify::slugify(text, stop_words, sep, max_length)
}

/// The slug of `title`: lower case, with every run of other characters
/// collapsed to one `_`. The same title always gives the same slug, and a
/// slug holds only characters that are safe in a file name.
pub fn slugify(title: &str) -> (slug: String)
    ensures
        slug@ == slug_of(title@),
        forall|i: int| 0 <= i < slug@.len() ==> is_filename_char(#[trigger] slug@[i]),
{
    proof {
        reveal_strlit("");
        reveal_strlit("_");
        assert(""@ =~= Seq::<char>::empty());
        assert("_"@ =~= seq!['_']);
    }
    slugify_call(title, "", "_", None)
}

} // verus!
