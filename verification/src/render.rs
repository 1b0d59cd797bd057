//! The sink's text format: a header line per product, then one block per
//! review.

use vstd::prelude::*;

use crate::page::{Review, ReviewModel};
use crate::query::{decimal_of, u32_to_decimal};

verus! {

/// The output block of one review: a label line carrying the identifier,
/// the review text as it was received, and a blank separator line.
pub open spec fn spec_review_block(r: ReviewModel) -> Seq<char> {
    "Review "@ + r.id + ":\n"@ + r.text + "\n\n"@
}

/// The header line that opens a product's output file.
pub open spec fn spec_header_line(app_id: u32) -> Seq<char> {
    "[Reviews for "@ + decimal_of(app_id as nat) + "]\n\n"@
}

/// Renders one review as its output block.
pub fn review_block(r: &Review) -> (s: String)
    ensures
        s@ == spec_review_block(r@),
{
    let mut s = String::from_str("Review ");
    s.append(r.id.as_str());
    s.append(":\n");
    s.append(r.text.as_str());
    s.append("\n\n");
    s
}

/// Renders the header line for a product's output file.
pub fn header_line(app_id: u32) -> (s: String)
    ensures
        s@ == spec_header_line(app_id),
{
    let mut s = String::from_str("[Reviews for ");
    let id = u32_to_decimal(app_id);
    s.append(id.as_str());
    s.append("]\n\n");
    s
}

/// Round trip through the sink format: both fields of a review reappear
/// verbatim in its output block, the identifier directly after the label,
/// the text directly after the label line, each without truncation or
/// re-encoding.
pub proof fn lemma_block_preserves_fields(r: ReviewModel)
    ensures
        spec_review_block(r).subrange(7, 7 + r.id.len() as int) == r.id,
        spec_review_block(r).subrange(
            9 + r.id.len() as int,
            9 + r.id.len() + r.text.len() as int,
        ) == r.text,
{
    reveal_strlit("Review ");
    reveal_strlit(":\n");
    reveal_strlit("\n\n");
    assert(spec_review_block(r).subrange(7, 7 + r.id.len() as int) =~= r.id);
    assert(spec_review_block(r).subrange(9 + r.id.len() as int, 9 + r.id.len() + r.text.len() as int)
        =~= r.text);
}

} // verus!
