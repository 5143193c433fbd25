//! The input reader's decision: what each line read from standard input is.
use crate::message::MtHint;
use crate::text::{contains_str, contains_text};
use vstd::prelude::*;

verus! {

/// The hint for a line of input: a line that mentions `gene_type` is a gene mapping,
/// any other line is an update.
pub fn line_hint(text: &str) -> (r: MtHint)
    ensures
        r == (if contains_text(text@, "gene_type"@) { MtHint::GeneMapping } else { MtHint::Update }),
{
    if contains_str(text, "gene_type") {
        MtHint::GeneMapping
    } else {
        MtHint::Update
    }
}

} // verus!
