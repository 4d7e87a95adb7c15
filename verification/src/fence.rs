//! The memory ordering fence that brackets a cache eviction.

use vstd::prelude::*;

verus! {

/// Issues a sequentially consistent memory fence.
///
/// Trusted: the body calls `std::sync::atomic::fence` with the ordering
/// `SeqCst`. The call returns nothing and takes no data, so nothing is
/// claimed of it.
#[verifier::external_body]
pub(crate) fn full_fence() {
    std::sync::atomic::fence(std::sync::atomic::Ordering::SeqCst);
}

} // verus!
