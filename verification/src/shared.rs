//! Sharing of syntax between the tree and the objects made from it.

use std::sync::Arc;
use vstd::prelude::*;

verus! {

/// Calls `Arc::clone`: another pointer to the same value.
#[verifier::external_body]
pub(crate) fn share<T>(a: &Arc<T>) -> (r: Arc<T>)
    ensures
        r == *a,
{
    Arc::clone(a)
}

} // verus!
