//! Numeric data providers.

use vstd::prelude::*;

use crate::providers::Provider;
use crate::random::random_u64;

verus! {

/// A `u64` data provider: every sequence it hands out is a fresh array of
/// random 64-bit integers, stored in little-endian order so that the bytes
/// do not depend on the platform.
#[derive(Debug)]
pub struct Unsigned64BitProvider {
    /// The number of `u64`s to provide per sequence.
    length: usize,
}

impl Unsigned64BitProvider {
    /// Eight bytes per integer never overflow a `usize` length.
    #[verifier::type_invariant]
    spec fn type_inv(&self) -> bool {
        self.length <= usize::MAX / 8
    }
    /// Creates a new `u64` data provider that returns `length` 64-bit
    /// unsigned integers (eight bytes each) per sequence.
    pub fn new(length: usize) -> (r: Unsigned64BitProvider)
        requires
            length <= usize::MAX / 8,
        ensures
            r.spec_bytes_per_input() == 8 * length,
    {
        Unsigned64BitProvider { length }
    }
}

/// Appends the eight little-endian bytes of `v` to `buffer`.
fn push_le_bytes(buffer: &mut Vec<u8>, v: u64)
    requires
        old(buffer)@.len() + 8 <= usize::MAX,
    ensures
        final(buffer)@.len() == old(buffer)@.len() + 8,
{
    let mut k: usize = 0;
    while k < 8
        invariant
            0 <= k <= 8,
            buffer@.len() == old(buffer)@.len() + k,
            old(buffer)@.len() + 8 <= usize::MAX,
        decreases 8 - k,
    {
        #[verifier::truncate]
        let byte: u8 = (v >> (8 * (k as u64))) as u8;
        buffer.push(byte);
        k = k + 1;
    }
}

impl Provider for Unsigned64BitProvider {
    closed spec fn spec_bytes_per_input(&self) -> usize {
        (8 * self.length) as usize
    }

    fn name(&self) -> String {
        "Unsigned 64-bit integers".to_owned()
    }

    fn provide(&mut self, n: usize) -> (r: Vec<Vec<u8>>) {
        proof {
            use_type_invariant(&*self);
        }
        let mut out: Vec<Vec<u8>> = Vec::new();
        let mut i: usize = 0;
        while i < n
            invariant
                0 <= i <= n,
                out@.len() == i,
                self.length <= usize::MAX / 8,
                forall|k: int|
                    0 <= k < out@.len() ==> (#[trigger] out@[k])@.len() == 8 * self.length,
            decreases n - i,
        {
            let mut buffer: Vec<u8> = Vec::new();
            let mut j: usize = 0;
            while j < self.length
                invariant
                    0 <= j <= self.length,
                    buffer@.len() == 8 * j,
                    self.length <= usize::MAX / 8,
                decreases self.length - j,
            {
                push_le_bytes(&mut buffer, random_u64());
                j = j + 1;
            }
            out.push(buffer);
            i = i + 1;
        }
        out
    }

    fn bytes_per_input(&mut self) -> usize {
        proof {
            use_type_invariant(&*self);
        }
        8 * self.length
    }
}

} // verus!
