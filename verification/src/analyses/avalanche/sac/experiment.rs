//! Experiments within a strict avalanche criterion test.

use vstd::prelude::*;

use crate::hash::HashCapability;
use crate::random::random_below;

verus! {

/// An error related to an [`Experiment`].
#[derive(Clone, Copy, Debug, PartialEq, Eq, Structural)]
pub enum Error {
    /// Attempted to create an [`Experiment`] over empty data.
    EmptyData,
}

/// The number of one bits in a byte.
pub open spec fn popcount_byte(b: u8) -> int {
    ((b >> 0) & 1) + ((b >> 1) & 1) + ((b >> 2) & 1) + ((b >> 3) & 1) + ((b >> 4) & 1) + ((b >> 5)
        & 1) + ((b >> 6) & 1) + ((b >> 7) & 1)
}

/// The number of one bits in a byte sequence (its Hamming weight).
pub open spec fn popcount(s: Seq<u8>) -> int
    decreases s.len(),
{
    if s.len() == 0 {
        0
    } else {
        popcount(s.drop_last()) + popcount_byte(s.last())
    }
}

/// The sequence with bit `k` flipped, where bit `k` means bit `k % 8` of
/// byte `k / 8`.
pub open spec fn flip_bit_seq(s: Seq<u8>, k: int) -> Seq<u8> {
    s.update(k / 8, s[k / 8] ^ (1u8 << (k % 8) as u8))
}

/// Replacing one byte changes the Hamming weight by the difference of the
/// byte weights.
proof fn lemma_popcount_update(s: Seq<u8>, i: int, b: u8)
    requires
        0 <= i < s.len(),
    ensures
        popcount(s.update(i, b)) == popcount(s) - popcount_byte(s[i]) + popcount_byte(b),
    decreases s.len(),
{
    if i == s.len() - 1 {
        assert(s.update(i, b).drop_last() =~= s.drop_last());
    } else {
        assert(s.update(i, b).drop_last() =~= s.drop_last().update(i, b));
        lemma_popcount_update(s.drop_last(), i, b);
    }
}

/// Flipping one bit of a byte moves its weight by exactly one, up when the
/// bit was clear and down when it was set.
proof fn lemma_popcount_byte_flip(b: u8, j: u8)
    requires
        j < 8,
    ensures
        popcount_byte(b ^ (1u8 << j)) == popcount_byte(b) + (if (b >> j) & 1 == 1 {
            -1int
        } else {
            1int
        }),
{
    assert(popcount_byte(b ^ (1u8 << j)) == popcount_byte(b) + (if (b >> j) & 1 == 1 {
        -1int
    } else {
        1int
    })) by (bit_vector)
        requires
            j < 8,
    ;
}

/// Flipping any single bit moves the Hamming weight of the whole sequence
/// by exactly one: the strict avalanche criterion's mutation step perturbs
/// the input minimally, always.
pub proof fn lemma_flip_changes_popcount_by_one(s: Seq<u8>, k: int)
    requires
        0 <= k < s.len() * 8,
    ensures
        popcount(flip_bit_seq(s, k)) - popcount(s) == 1 || popcount(flip_bit_seq(s, k)) - popcount(
            s,
        ) == -1,
{
    let i = k / 8;
    let j = (k % 8) as u8;
    assert(0 <= i < s.len() && j < 8) by (nonlinear_arith)
        requires
            0 <= k < s.len() * 8,
            i == k / 8,
            j == (k % 8) as u8,
    ;
    lemma_popcount_update(s, i, s[i] ^ (1u8 << j));
    lemma_popcount_byte_flip(s[i], j);
}

/// An experiment within a strict avalanche criterion test: one input drawn
/// from a provider, mutated one random bit at a time.
#[derive(Debug)]
pub struct Experiment {
    /// The data being hashed.
    data: Vec<u8>,
}

impl Experiment {
    /// A well-formed experiment: the data is never empty and its bit
    /// indices fit a `usize`. The constructor establishes this and every
    /// method preserves it.
    pub closed spec fn wf(&self) -> bool {
        1 <= self.data@.len() <= usize::MAX / 8
    }

    /// The bytes currently held by the experiment.
    pub closed spec fn spec_data(&self) -> Seq<u8> {
        self.data@
    }

    /// Attempts to create a new [`Experiment`]; empty data is refused.
    pub fn try_new(data: Vec<u8>) -> (r: Result<Experiment, Error>)
        requires
            data@.len() <= usize::MAX / 8,
        ensures
            match r {
                Ok(e) => e.wf() && data@.len() > 0 && e.spec_data() == data@,
                Err(e) => data@.len() == 0 && e == Error::EmptyData,
            },
    {
        if data.len() == 0 {
            return Err(Error::EmptyData);
        }
        Ok(Experiment { data })
    }

    /// Gets a reference to the inner data for this [`Experiment`].
    pub fn data(&self) -> (r: &Vec<u8>)
        ensures
            r@ == self.spec_data(),
    {
        &self.data
    }

    /// Flips one uniformly random bit within the data. Whatever bit is
    /// chosen, the Hamming weight moves by exactly one.
    pub fn flip_random_bit(&mut self)
        requires
            old(self).wf(),
        ensures
            final(self).wf(),
            final(self).spec_data().len() == old(self).spec_data().len(),
            exists|k: int|
                0 <= k < old(self).spec_data().len() * 8 && final(self).spec_data()
                    == flip_bit_seq(old(self).spec_data(), k),
            popcount(final(self).spec_data()) - popcount(old(self).spec_data()) == 1 || popcount(
                final(self).spec_data(),
            ) - popcount(old(self).spec_data()) == -1,
    {
        let bits: usize = self.data.len() * 8;
        let k: usize = random_below(bits);
        let byte: usize = k / 8;
        let bit: usize = k % 8;
        proof {
            assert(byte < self.data@.len() && bit < 8) by (nonlinear_arith)
                requires
                    k < self.data@.len() * 8,
                    byte == k as int / 8,
                    bit == k as int % 8,
                    self.data@.len() * 8 <= usize::MAX,
            ;
        }
        let flipped: u8 = self.data[byte] ^ (1u8 << (bit as u8));
        self.data[byte] = flipped;
        proof {
            assert(self.data@ == flip_bit_seq(old(self).spec_data(), k as int));
            lemma_flip_changes_popcount_by_one(old(self).spec_data(), k as int);
        }
    }

    /// Runs the experiment: `iterations` times, digest the data, flip one
    /// random bit, digest again, and count which of the 64 output bits
    /// differ between the two digests.
    ///
    /// Returns the per-output-bit flip counters; each is at most
    /// `iterations`.
    pub fn run<H: HashCapability>(&mut self, build_hasher: &H, iterations: u64) -> (r: Vec<u64>)
        requires
            old(self).wf(),
        ensures
            final(self).wf(),
            r@.len() == 64,
            forall|j: int| 0 <= j < 64 ==> #[trigger] r@[j] <= iterations,
            final(self).spec_data().len() == old(self).spec_data().len(),
    {
        let mut counts: Vec<u64> = Vec::new();
        let mut j: usize = 0;
        while j < 64
            invariant
                counts@.len() == j <= 64,
                forall|t: int| 0 <= t < j ==> #[trigger] counts@[t] == 0,
            decreases 64 - j,
        {
            counts.push(0);
            j = j + 1;
        }

        let mut previous: u64 = build_hasher.hash_one(self.data.as_slice());
        let mut it: u64 = 0;
        while it < iterations
            invariant
                self.wf(),
                0 <= it <= iterations,
                counts@.len() == 64,
                forall|t: int| 0 <= t < 64 ==> #[trigger] counts@[t] <= it,
                self.spec_data().len() == old(self).spec_data().len(),
            decreases iterations - it,
        {
            self.flip_random_bit();
            let next: u64 = build_hasher.hash_one(self.data.as_slice());
            let changed: u64 = previous ^ next;
            accumulate_bit_flips(&mut counts, changed);
            previous = next;
            it = it + 1;
        }
        counts
    }
}

/// Whether bit `j` of `x` is set.
pub open spec fn bit_set(x: u64, j: int) -> bool {
    (x >> (j as u64)) & 1 == 1
}

/// Increments, for each of the 64 bit positions set in `changed`, that
/// position's counter by one.
pub fn accumulate_bit_flips(counts: &mut Vec<u64>, changed: u64)
    requires
        old(counts)@.len() == 64,
        forall|j: int| 0 <= j < 64 ==> #[trigger] old(counts)@[j] < u64::MAX,
    ensures
        final(counts)@.len() == 64,
        forall|j: int|
            0 <= j < 64 ==> #[trigger] final(counts)@[j] == old(counts)@[j] + (if bit_set(
                changed,
                j,
            ) {
                1int
            } else {
                0int
            }),
{
    let mut j: usize = 0;
    while j < 64
        invariant
            0 <= j <= 64,
            counts@.len() == 64,
            forall|t: int| j <= t < 64 ==> #[trigger] counts@[t] == old(counts)@[t],
            forall|t: int|
                0 <= t < j ==> #[trigger] counts@[t] == old(counts)@[t] + (if bit_set(changed, t) {
                    1int
                } else {
                    0int
                }),
            forall|t: int| 0 <= t < 64 ==> #[trigger] old(counts)@[t] < u64::MAX,
        decreases 64 - j,
    {
        if (changed >> (j as u64)) & 1 == 1 {
            let bumped: u64 = counts[j] + 1;
            counts[j] = bumped;
        }
        j = j + 1;
    }
}

} // verus!
