//! Text operations taken from the standard library, stated over named
//! results so that the rest of the library can reason about them.

use vstd::prelude::*;

verus! {

/// The character sequence that `str::trim` returns for a given string:
/// the input without its leading and trailing whitespace.
pub uninterp spec fn trimmed(s: Seq<char>) -> Seq<char>;

/// Relies on `str::trim`: the result depends on the characters alone,
/// is never longer than the input, and is empty for an empty input.
#[verifier::external_body]
pub(crate) fn trim_text(s: &str) -> (r: String)
    ensures
        r@ == trimmed(s@),
        r@.len() <= s@.len(),
        s@.len() == 0 ==> r@.len() == 0,
{
    s.trim().to_string()
}

/// The character sequence that `String::from_utf8_lossy` returns for
/// given bytes: their UTF-8 decoding, with invalid sequences replaced
/// by the replacement character.
pub uninterp spec fn utf8_lossy(bytes: Seq<u8>) -> Seq<char>;

/// Relies on `String::from_utf8_lossy`: the result depends on the
/// bytes alone, and no bytes decode to no characters.
#[verifier::external_body]
pub(crate) fn lossy_text(bytes: &[u8]) -> (r: String)
    ensures
        r@ == utf8_lossy(bytes@),
        bytes@.len() == 0 ==> r@.len() == 0,
{
    String::from_utf8_lossy(bytes).into_owned()
}

} // verus!
