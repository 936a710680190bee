//! Names of generated items.

use vstd::prelude::*;

verus! {

/// What `heck` makes of `name` when it writes it in upper camel case.
pub uninterp spec fn upper_camel_case(name: Seq<char>) -> Seq<char>;

/// Writes `name` in upper camel case, as the name of a Rust type.
///
/// Calls `heck::ToUpperCamelCase::to_upper_camel_case` for `str`. The
/// conversion reads nothing but its argument, so the result is named by
/// [`upper_camel_case`]; nothing more is claimed of it.
#[verifier::external_body]
pub(crate) fn to_upper_camel_case(name: &str) -> (res: String)
    ensures
        res@ == upper_camel_case(name@),
{
    heck::ToUpperCamelCase::to_upper_camel_case(name)
}

} // verus!
