//! Lock-step traversal of four token sequences.

use vstd::prelude::*;
use super::Token;

verus! {

/// Four tokens taken at the same position of four sequences.
pub type Row = (Token, Token, Token, Token);

/// The sequences `a`, `b`, `c` and `d` walked in lock step: one row per
/// position that all four of them have.
pub open spec fn zipped(a: Seq<Token>, b: Seq<Token>, c: Seq<Token>, d: Seq<Token>) -> Seq<Row> {
    Seq::new(shortest(a.len(), b.len(), c.len(), d.len()), |i: int| (a[i], b[i], c[i], d[i]))
}

/// The least of four lengths.
pub open spec fn shortest(a: nat, b: nat, c: nat, d: nat) -> nat {
    let ab = if a <= b { a } else { b };
    let cd = if c <= d { c } else { d };
    if ab <= cd { ab } else { cd }
}

/// Trusted: `multizip::zip4` over the four slices, collected into a vector.
///
/// `zip4` nests three `Iterator::zip` adaptors and flattens their items, so
/// it yields the tuple of the `i`-th elements for each `i` below the length
/// of the shortest input, in order, and then stops. The contract claims
/// exactly that; Verus does not check it against the body.
#[verifier::external_body]
pub(crate) fn zip_rows(a: &[Token], b: &[Token], c: &[Token], d: &[Token]) -> (rows: Vec<Row>)
    ensures
        rows@ == zipped(a@, b@, c@, d@),
{
    multizip::zip4(a.iter().copied(), b.iter().copied(), c.iter().copied(), d.iter().copied())
        .collect()
}

} // verus!
