//! Unicode-aware primitives the rest of the library builds on: grapheme
//! cluster segmentation of a line, and the alphanumeric character class.

use unicode_segmentation::UnicodeSegmentation;
use vstd::prelude::*;

verus! {

/// The grapheme clusters of a character sequence, in order. A string's
/// segmentation depends on the characters alone.
pub uninterp spec fn graphemes_of(s: Seq<char>) -> Seq<Seq<char>>;

/// Whether a character is Unicode alphanumeric; it depends on the character
/// alone.
pub uninterp spec fn is_alnum(c: char) -> bool;

/// Relies on unicode_segmentation's `UnicodeSegmentation::graphemes`: the
/// returned substrings are the extended grapheme clusters of the input, in
/// order; they are non-empty and their concatenation is the input itself
/// (UAX #29 segmentation partitions the string).
#[verifier::external_body]
pub(crate) fn graphemes(s: &str) -> (r: Vec<String>)
    ensures
        r.deep_view() == graphemes_of(s@),
        r.deep_view().flatten() == s@,
        forall|i: int| 0 <= i < r@.len() ==> r@[i]@.len() > 0,
{
    UnicodeSegmentation::graphemes(s, true).map(|g| g.to_owned()).collect()
}

/// Relies on `char::is_alphanumeric` of std: whether the character is in the
/// Unicode Alphabetic property or in the Nd/Nl/No general categories; it
/// depends on the character alone.
#[verifier::external_body]
pub(crate) fn char_is_alphanumeric(c: char) -> (r: bool)
    ensures
        r == is_alnum(c),
{
    c.is_alphanumeric()
}

/// A sequence of non-empty sequences has at least as many elements in its
/// concatenation as it has members.
pub proof fn lemma_flatten_len_ge_count(gs: Seq<Seq<char>>)
    requires
        forall|i: int| 0 <= i < gs.len() ==> gs[i].len() > 0,
    ensures
        gs.flatten().len() >= gs.len(),
    decreases gs.len(),
{
    if gs.len() == 0 {
    } else {
        assert(gs.flatten() == gs.first() + gs.drop_first().flatten());
        lemma_flatten_len_ge_count(gs.drop_first());
        assert(gs.first().len() > 0);
    }
}

} // verus!
