//! Small operations on text that the descriptors need.

use vstd::prelude::*;

verus! {

/// The ASCII lower-case form of a character: `A` to `Z` become `a` to `z`,
/// every other character stays.
pub open spec fn ascii_lower(c: char) -> char {
    if 'A' <= c && c <= 'Z' {
        ((c as u8) + 32) as char
    } else {
        c
    }
}

/// The text with each character in its ASCII lower-case form.
pub open spec fn lower(text: Seq<char>) -> Seq<char> {
    Seq::new(text.len(), |i: int| ascii_lower(text[i]))
}

/// `str::to_ascii_lowercase`: a copy in which the ASCII letters `A` to `Z`
/// are `a` to `z` and every other character is unchanged.
#[verifier::external_body]
pub(crate) fn to_lower(text: &str) -> (lowered: String)
    ensures
        lowered@ == lower(text@),
{
    text.to_ascii_lowercase()
}

/// Lower-casing changes nothing in a text that is lower-cased already.
pub proof fn lemma_lower_idempotent(text: Seq<char>)
    ensures
        lower(lower(text)) == lower(text),
{
    assert(lower(lower(text)) =~= lower(text));
}

/// Whether two texts are equal once ASCII letters are lower-cased.
pub fn same_ignoring_case(a: &str, b: &str) -> (same: bool)
    ensures
        same == (lower(a@) == lower(b@)),
{
    to_lower(a) == to_lower(b)
}

/// Whether the text starts with this character.
pub fn starts_with_char(text: &str, c: char) -> (starts: bool)
    ensures
        starts == (text@.len() > 0 && text@[0] == c),
{
    if text.is_empty() {
        false
    } else {
        text.get_char(0) == c
    }
}

} // verus!
