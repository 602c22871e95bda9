//! What the library has from the platform: the application's
//! configuration directory, fresh note ids, and UTF-8 decoding.

use vstd::prelude::*;
use vstd::utf8::{decode_utf8, valid_utf8};

verus! {

/// A lower-case ASCII letter.
pub open spec fn is_lower_letter(c: char) -> bool {
    'a' <= c <= 'z'
}

/// A character of a note id: a lower-case ASCII letter or a digit.
pub open spec fn is_id_char(c: char) -> bool {
    is_lower_letter(c) || '0' <= c <= '9'
}

/// The identity under which the platform knows the application: a
/// reverse-domain qualifier, the organization and the product.
pub open spec fn application_identity() -> (Seq<char>, Seq<char>, Seq<char>) {
    ("com"@, "Epiphany"@, "Epiphany"@)
}

/// The identity under which the platform knows the application.
pub fn identity() -> (triple: (&'static str, &'static str, &'static str))
    ensures
        (triple.0@, triple.1@, triple.2@) == application_identity(),
{
    ("com", "Epiphany", "Epiphany")
}

/// Calls `directories::ProjectDirs::from` and takes the configuration
/// directory of what it returns. The answer depends on the operating
/// system and on the user's environment, so nothing is claimed of it.
/// `None` stands for a platform that names no home directory, and for a
/// directory whose path is not UTF-8.
#[verifier::external_body]
pub(crate) fn project_config_dir(qualifier: &str, organization: &str, application: &str) -> (dir: Option<
    String,
>) {
    let dirs = directories::ProjectDirs::from(qualifier, organization, application)?;
    Some(dirs.config_dir().to_str()?.to_string())
}

/// Calls `cuid2::create_id`. Ids are drawn from the clock, a counter and
/// random numbers, so two calls differ. Every id begins with a letter
/// from `a` to `z` and goes on with such letters and digits, which is all
/// that is claimed. The outside function gives up on a machine whose
/// clock is set before 1970 or that hands out no random bytes.
#[verifier::external_body]
pub(crate) fn create_id() -> (id: String)
    ensures
        id@.len() > 0,
        is_lower_letter(id@[0]),
        forall|i: int| 0 <= i < id@.len() ==> is_id_char(#[trigger] id@[i]),
{
    cuid2::create_id()
}

/// Calls `String::from_utf8`, which accepts exactly the byte strings that
/// are valid UTF-8 and then holds the text those bytes encode.
#[verifier::external_body]
pub(crate) fn string_from_utf8(bytes: Vec<u8>) -> (text: Option<String>)
    ensures
        text is Some <==> valid_utf8(bytes@),
        text matches Some(s) ==> s@ == decode_utf8(bytes@),
{
    String::from_utf8(bytes).ok()
}

} // verus!
