//! Random draws, behind minimal contracts.
//!
//! Randomness cannot be pinned down, so each wrapper promises only shape:
//! the library's contracts then hold for every value the generator returns.

use vstd::prelude::*;

verus! {

/// Relies on `rand::Rng::gen_range` over `0..bound`: a uniformly drawn
/// index strictly below `bound`.
#[verifier::external_body]
pub fn random_below(bound: usize) -> (r: usize)
    requires
        bound > 0,
    ensures
        r < bound,
{
    rand::Rng::gen_range(&mut rand::thread_rng(), 0..bound)
}

/// Relies on `rand::Rng::gen`: a uniformly drawn 64-bit value. Nothing is
/// promised of the value.
#[verifier::external_body]
pub fn random_u64() -> u64 {
    rand::Rng::gen(&mut rand::thread_rng())
}

/// Relies on `rand::distributions::Alphanumeric`, which samples uniformly
/// from `A-Z`, `a-z` and `0-9`: exactly `len` bytes, each an ASCII
/// alphanumeric code.
#[verifier::external_body]
pub fn random_alphanumeric_bytes(len: usize) -> (r: Vec<u8>)
    ensures
        r@.len() == len,
        forall|i: int|
            0 <= i < r@.len() ==> (0x30 <= #[trigger] r@[i] <= 0x39 || 0x41 <= r@[i] <= 0x5a
                || 0x61 <= r@[i] <= 0x7a),
{
    rand::Rng::sample_iter(rand::thread_rng(), rand::distributions::Alphanumeric).take(
        len,
    ).collect()
}

} // verus!
