use vstd::prelude::*;

verus! {

/// The grapheme clusters of a character sequence, in order, as Unicode
/// extended grapheme cluster segmentation divides it.  Cluster boundaries
/// depend on the characters alone, so this is a function of its argument.
pub uninterp spec fn graphemes_of(s: Seq<char>) -> Seq<Seq<char>>;

/// Relies on unicode_segmentation's `UnicodeSegmentation::graphemes` (with
/// extended clusters): it yields the grapheme clusters of the string, in
/// order.  The clusters are the substrings between segmentation boundaries,
/// so their concatenation is the string itself, and an empty string yields
/// none.
#[verifier::external_body]
pub(crate) fn grapheme_clusters(s: &str) -> (r: Vec<String>)
    ensures
        r@.len() == graphemes_of(s@).len(),
        forall|i: int| 0 <= i < r@.len() ==> r@[i]@ == graphemes_of(s@)[i],
        r@.map_values(|g: String| g@).flatten() == s@,
        r@.len() == 0 <==> s@.len() == 0,
{
    unicode_segmentation::UnicodeSegmentation::graphemes(s, true)
        .map(|g| g.to_string())
        .collect()
}

} // verus!
