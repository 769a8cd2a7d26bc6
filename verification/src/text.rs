//! Upper-casing of the title fields that roff directives carry.

use vstd::prelude::*;

verus! {

pub uninterp spec fn upper_of(s: Seq<char>) -> Seq<char>;

/// The upper-case form of a text.
///
/// Relies on `str::to_uppercase`: the result is determined by the
/// characters of the input alone (Unicode upper-case mapping), and an
/// empty input gives an empty result.
#[verifier::external_body]
pub(crate) fn uppercase(s: &str) -> (r: String)
    ensures
        r@ == upper_of(s@),
        s@.len() == 0 ==> r@.len() == 0,
{
    s.to_uppercase()
}

} // verus!
