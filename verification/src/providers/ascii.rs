//! ASCII data providers.

use vstd::prelude::*;

use crate::providers::Provider;
use crate::random::random_alphanumeric_bytes;

verus! {

/// An alphanumeric ASCII data provider: every sequence it hands out is a
/// fresh random string of `A-Z`, `a-z` and `0-9` bytes.
#[derive(Clone, Debug)]
pub struct AlphanumericProvider {
    /// The number of characters to provide per sequence.
    pub length: usize,
}

impl AlphanumericProvider {
    /// Creates a new ASCII data provider that returns `length` alphanumeric
    /// characters per sequence. Every alphanumeric character is a single
    /// byte, so `length` is also the byte length of each sequence.
    pub fn new(length: usize) -> (r: AlphanumericProvider)
        ensures
            r.spec_bytes_per_input() == length,
    {
        AlphanumericProvider { length }
    }
}

impl Provider for AlphanumericProvider {
    open spec fn spec_bytes_per_input(&self) -> usize {
        self.length
    }

    fn name(&self) -> String {
        "ASCII Alphanumeric".to_owned()
    }

    fn provide(&mut self, n: usize) -> (r: Vec<Vec<u8>>) {
        let mut out: Vec<Vec<u8>> = Vec::new();
        let mut i: usize = 0;
        while i < n
            invariant
                0 <= i <= n,
                out@.len() == i,
                forall|k: int|
                    0 <= k < out@.len() ==> (#[trigger] out@[k])@.len() == self.length,
            decreases n - i,
        {
            out.push(random_alphanumeric_bytes(self.length));
            i = i + 1;
        }
        out
    }

    fn bytes_per_input(&mut self) -> usize {
        self.length
    }
}

} // verus!
