//! Shared ownership of immutable values.

use std::sync::Arc;
use vstd::prelude::*;

verus! {

/// Calls `Arc::clone`: one more handle to the value that `handle` points to.
/// Handles are equal where their values are.
#[verifier::external_body]
pub(crate) fn share<T>(handle: &Arc<T>) -> (copy: Arc<T>)
    ensures
        copy == *handle,
{
    Arc::clone(handle)
}

} // verus!
