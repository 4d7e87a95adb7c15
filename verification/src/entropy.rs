//! The source of random lanes for keys and chaining seeds.

use vstd::prelude::*;

verus! {

/// Draws a uniformly random 128-bit value.
///
/// Trusted: the body calls `rand::random::<u128>()`, which samples the
/// thread-local generator. Every value of `u128` can come back, so nothing
/// is claimed of the result.
#[verifier::external_body]
pub(crate) fn random_lane() -> (r: u128) {
    rand::random::<u128>()
}

} // verus!
