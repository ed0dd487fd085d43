//! Data providers: sources of the byte sequences that get hashed.

use vstd::prelude::*;

pub mod ascii;
pub mod numeric;

verus! {

/// A data provider for a hash function.
///
/// A provider hands out batches of byte sequences on demand; all sequences
/// it ever produces have one fixed length. Drawing data may advance internal
/// state (typically a random generator), but never changes that length.
pub trait Provider: Sized {
    /// The fixed byte length of every provided sequence.
    spec fn spec_bytes_per_input(&self) -> usize;

    /// The name of the provider.
    fn name(&self) -> String;

    /// Provides data by specifying the number of desired sequences (not
    /// bytes): exactly `n` sequences, each of the fixed length.
    fn provide(&mut self, n: usize) -> (r: Vec<Vec<u8>>)
        ensures
            r@.len() == n,
            forall|i: int|
                0 <= i < r@.len() ==> (#[trigger] r@[i])@.len() == old(
                    self,
                ).spec_bytes_per_input(),
            final(self).spec_bytes_per_input() == old(self).spec_bytes_per_input(),
    ;

    /// The number of bytes per provided sequence.
    fn bytes_per_input(&mut self) -> (r: usize)
        ensures
            r == old(self).spec_bytes_per_input(),
            final(self).spec_bytes_per_input() == old(self).spec_bytes_per_input(),
    ;
}

/// The byte sequence length, in bits, of a short-input provider.
pub const SHORT_BITS: usize = 3;

/// The byte sequence length, in bits, of a medium-input provider.
pub const MEDIUM_BITS: usize = 6;

/// The byte sequence length, in bits, of a long-input provider.
pub const LONG_BITS: usize = 12;

/// A list of possible providers.
#[derive(Clone, Copy, Debug, PartialEq, Eq, Structural)]
pub enum AvailableProviders {
    /// A medium ASCII alphanumeric string.
    ASCIIAlphanumeric,
    /// A long ASCII alphanumeric string.
    ASCIIAlphanumericLong,
    /// A short ASCII alphanumeric string.
    ASCIIAlphanumericShort,
    /// A medium array of `u64`s.
    U64,
    /// A long array of `u64`s.
    U64Long,
    /// A short array of `u64`s.
    U64Short,
}

impl AvailableProviders {
    /// The input length that the chosen provider is constructed with: the
    /// character count for the ASCII providers, the integer count for the
    /// numeric ones.
    pub fn input_length(&self) -> (r: usize)
        ensures
            r == match self {
                AvailableProviders::ASCIIAlphanumeric => 1usize << MEDIUM_BITS,
                AvailableProviders::ASCIIAlphanumericLong => 1usize << LONG_BITS,
                AvailableProviders::ASCIIAlphanumericShort => 1usize << SHORT_BITS,
                AvailableProviders::U64 => 1usize << MEDIUM_BITS,
                AvailableProviders::U64Long => 1usize << LONG_BITS,
                AvailableProviders::U64Short => 1usize << SHORT_BITS,
            },
    {
        match self {
            AvailableProviders::ASCIIAlphanumeric => 1usize << MEDIUM_BITS,
            AvailableProviders::ASCIIAlphanumericLong => 1usize << LONG_BITS,
            AvailableProviders::ASCIIAlphanumericShort => 1usize << SHORT_BITS,
            AvailableProviders::U64 => 1usize << MEDIUM_BITS,
            AvailableProviders::U64Long => 1usize << LONG_BITS,
            AvailableProviders::U64Short => 1usize << SHORT_BITS,
        }
    }
}

} // verus!
