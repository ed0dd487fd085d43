//! The hash capability consumed by every analysis.

use vstd::prelude::*;

verus! {

/// A 64-bit hash function under evaluation.
///
/// Implementations build a fresh hasher for each call, feed it the data,
/// and return the finished 64-bit digest. The library promises nothing
/// about the digests: every analysis is verified to account correctly for
/// whatever values come back, which is exactly the position of a harness
/// that must cope with arbitrarily bad hash functions.
pub trait HashCapability: Sized {
    /// Digests `data` with a fresh hasher and returns the 64-bit result.
    fn hash_one(&self, data: &[u8]) -> u64;
}

} // verus!
