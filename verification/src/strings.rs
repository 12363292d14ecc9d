//! Operations on strings that the standard library provides.

use vstd::prelude::*;

verus! {

/// Calls the equality of `str`: two strings are equal exactly when they
/// hold the same characters in the same order.
#[verifier::external_body]
pub(crate) fn str_eq(a: &str, b: &str) -> (r: bool)
    ensures
        r == (a@ == b@),
{
    a == b
}

} // verus!
