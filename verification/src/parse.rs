//! What a query declares about the number of rows it returns.

use vstd::prelude::*;

verus! {

/// How many rows a query is expected to produce.
#[derive(Clone, Copy, Debug, PartialEq, Eq, Structural)]
pub enum Quantifier {
    ZeroOrMore,
    ZeroOrOne,
    One,
    Raw,
}

} // verus!
