use vstd::prelude::*;
use std::sync::Arc;

verus! {

/// Calls `Arc::clone`: the result is a new handle to the same buffer, so it
/// holds the same bytes. (The reference count it raises is not modeled.)
#[verifier::external_body]
pub(crate) fn share_buffer(buf: &Arc<Vec<u8>>) -> (r: Arc<Vec<u8>>)
    ensures
        r == *buf,
{
    Arc::clone(buf)
}

/// Calls `Arc::strong_count`: the number of handles to the buffer, at least
/// one since `buf` is one of them. Which number it is depends on the other
/// handles alive in the program, so nothing more is stated.
#[verifier::external_body]
pub(crate) fn holder_count(buf: &Arc<Vec<u8>>) -> (n: u64)
    ensures
        n >= 1,
{
    Arc::strong_count(buf) as u64
}

} // verus!
