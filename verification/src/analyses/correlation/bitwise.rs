//! The bitwise correlation test.
//!
//! Each iteration hashes one fresh input; for every one of the 64 output
//! bit positions, that position's 0/1 value is appended to a growable
//! per-position sample vector. On demand, the full 64 by 64 matrix of
//! Pearson correlation coefficients between the per-position vectors is
//! computed exactly; the test fails when any off-diagonal coefficient has
//! magnitude at or above the configured threshold, and the diagonal serves
//! as a self-check, always reading exactly one.

use vstd::prelude::*;
use vstd::pervasive::unreached;

use crate::hash::HashCapability;
use crate::providers::Provider;
use crate::report::section::test::Builder;
use crate::report::section::test::module::Verdict;
use crate::statistics::correlation::pearson;
use crate::statistics::correlation::pearson::Correlation;
use crate::statistics::correlation::pearson::mag_le;
use crate::statistics::correlation::pearson::pearson_num;
use crate::statistics::correlation::pearson::pearson_var;

verus! {

/// An error constructing a bitwise correlation [`Test`].
#[derive(Clone, Copy, Debug, PartialEq, Eq, Structural)]
pub enum Error {
    /// The correlation threshold, in millionths, must not exceed one whole.
    InvalidThreshold(u32),
}

/// The 0/1 value of output bit `i` across a sequence of digests.
pub open spec fn bit_column(hashes: Seq<u64>, i: int) -> Seq<u8> {
    Seq::new(hashes.len(), |k: int| ((hashes[k] >> (i as u64)) & 1) as u8)
}

/// Extracted bit values are zeros and ones.
proof fn lemma_extracted_bit_le_one(h: u64, i: u64)
    ensures
        ((h >> i) & 1) as u8 <= 1,
{
    assert((h >> i) & 1 <= 1) by (bit_vector);
}

/// A sample vector of bits, widened to the integers for correlating.
pub open spec fn row_as_samples(s: Seq<u8>) -> Seq<i64> {
    Seq::new(s.len(), |k: int| s[k] as i64)
}

/// Whether the pair of sample rows `i` and `j` correlates, in magnitude, at
/// or above `threshold` millionths: both sides of
/// `|num| * 10^6 >= threshold * sqrt(var_i * var_j)` squared, so the
/// comparison is exact.
pub open spec fn pair_exceeds(rows: Seq<Seq<i64>>, i: int, j: int, threshold: u32) -> bool {
    pearson_num(rows[i], rows[j]) * pearson_num(rows[i], rows[j]) * 1_000_000_000_000 >= threshold
        * threshold * pearson_var(rows[i]) * pearson_var(rows[j])
}

/// Whether row `i` correlates at or above `threshold` with any other row.
pub open spec fn row_exceeds(rows: Seq<Seq<i64>>, i: int, threshold: u32) -> bool {
    exists|j: int| 0 <= j < 64 && j != i && pair_exceeds(rows, i, j, threshold)
}

/// A bitwise correlation test.
#[derive(Debug)]
pub struct Test {
    /// The 0/1 values accumulated for each bit of the output hash.
    bit_values: Vec<Vec<u8>>,
    /// The threshold of correlation, in millionths, at which any
    /// off-diagonal value causes the test to fail.
    threshold: u32,
}

impl Test {
    /// A well-formed test: 64 sample vectors of one shared length (small
    /// enough to correlate exactly), holding only zeros and ones, and a
    /// threshold that is a fraction. Constructors establish this and every
    /// method preserves it.
    pub closed spec fn wf(&self) -> bool {
        &&& self.bit_values@.len() == 64
        &&& forall|i: int|
            0 <= i < 64 ==> (#[trigger] self.bit_values@[i])@.len() == self.spec_samples()
        &&& self.spec_samples() <= 0x80000
        &&& forall|i: int, k: int|
            0 <= i < 64 && 0 <= k < self.spec_samples() ==> (#[trigger] self.bit_values@[i]@[k])
                <= 1
        &&& self.threshold <= 1_000_000
    }

    /// The number of samples accumulated per bit position.
    pub closed spec fn spec_samples(&self) -> nat {
        self.bit_values@[0]@.len()
    }

    /// The accumulated per-position sample vectors.
    pub closed spec fn spec_bit_values(&self) -> Seq<Seq<u8>> {
        Seq::new(64, |i: int| self.bit_values@[i]@)
    }

    /// The accumulated sample vectors, widened for correlating.
    pub open spec fn spec_rows(&self) -> Seq<Seq<i64>> {
        Seq::new(64, |i: int| row_as_samples(self.spec_bit_values()[i]))
    }

    /// The configured correlation threshold in millionths.
    pub closed spec fn spec_threshold(&self) -> u32 {
        self.threshold
    }

    /// Creates a new [`Test`] with 64 empty sample vectors.
    ///
    /// The threshold, given in millionths, must describe a fraction in
    /// `[0, 1]`; otherwise an error naming the value is returned and no
    /// test is produced.
    pub fn new(threshold: u32) -> (r: Result<Test, Error>)
        ensures
            match r {
                Ok(t) => threshold <= 1_000_000 && t.wf() && t.spec_samples() == 0
                    && t.spec_threshold() == threshold,
                Err(Error::InvalidThreshold(v)) => v == threshold && threshold > 1_000_000,
            },
    {
        if threshold > 1_000_000 {
            return Err(Error::InvalidThreshold(threshold));
        }
        let mut bit_values: Vec<Vec<u8>> = Vec::new();
        let mut i: usize = 0;
        while i < 64
            invariant
                bit_values@.len() == i <= 64,
                forall|t: int| 0 <= t < i ==> (#[trigger] bit_values@[t])@.len() == 0,
            decreases 64 - i,
        {
            bit_values.push(Vec::new());
            i = i + 1;
        }
        Ok(Test { bit_values, threshold })
    }

    /// Gets the accumulated bit values of this [`Test`].
    pub fn bit_values(&self) -> (r: &Vec<Vec<u8>>)
        requires
            self.wf(),
        ensures
            r@.len() == 64,
            forall|i: int| 0 <= i < 64 ==> (#[trigger] r@[i])@ == self.spec_bit_values()[i],
    {
        &self.bit_values
    }

    /// Gets the correlation threshold, in millionths, of this [`Test`].
    pub fn threshold(&self) -> (r: u32)
        ensures
            r == self.spec_threshold(),
    {
        self.threshold
    }

    /// Runs a batch of iterations using a [`Provider`]: draws `iterations`
    /// samples, digests each, and appends each digest's 64 bit values to
    /// the per-position sample vectors. Batches from multiple runs (and
    /// multiple providers) concatenate.
    pub fn run<H: HashCapability, P: Provider>(
        &mut self,
        build_hasher: &H,
        provider: &mut P,
        iterations: usize,
    )
        requires
            old(self).wf(),
            old(self).spec_samples() + iterations <= 0x80000,
        ensures
            final(self).wf(),
            final(self).spec_threshold() == old(self).spec_threshold(),
            final(self).spec_samples() == old(self).spec_samples() + iterations,
            exists|hs: Seq<u64>|
                hs.len() == iterations && forall|i: int|
                    0 <= i < 64 ==> final(self).spec_bit_values()[i] == old(
                        self,
                    ).spec_bit_values()[i] + bit_column(hs, i),
    {
        let hashes = compute_hashes(build_hasher, provider, iterations);
        let columns = extract_bit_values_from_hashes(&hashes);

        let mut updated: Vec<Vec<u8>> = Vec::new();
        let mut i: usize = 0;
        while i < 64
            invariant
                0 <= i <= 64,
                old(self).wf(),
                self == old(self),
                hashes@.len() == iterations,
                columns@.len() == 64,
                forall|t: int| 0 <= t < 64 ==> (#[trigger] columns@[t])@ == bit_column(hashes@, t),
                updated@.len() == i,
                forall|t: int|
                    0 <= t < i ==> (#[trigger] updated@[t])@ == old(self).spec_bit_values()[t]
                        + bit_column(hashes@, t),
            decreases 64 - i,
        {
            let mut row: Vec<u8> = Vec::new();
            let mut k: usize = 0;
            let current = &self.bit_values[i];
            while k < current.len()
                invariant
                    0 <= k <= current@.len(),
                    row@ == current@.subrange(0, k as int),
                decreases current@.len() - k,
            {
                row.push(current[k]);
                k = k + 1;
            }
            proof {
                assert(current@.subrange(0, current@.len() as int) =~= current@);
            }
            let column = &columns[i];
            let mut k2: usize = 0;
            while k2 < column.len()
                invariant
                    0 <= k2 <= column@.len(),
                    row@ == current@ + column@.subrange(0, k2 as int),
                decreases column@.len() - k2,
            {
                proof {
                    assert(current@ + column@.subrange(0, k2 + 1) =~= (current@
                        + column@.subrange(0, k2 as int)).push(column@[k2 as int]));
                }
                row.push(column[k2]);
                k2 = k2 + 1;
            }
            proof {
                assert(column@.subrange(0, column@.len() as int) =~= column@);
            }
            updated.push(row);
            i = i + 1;
        }

        self.bit_values = updated;
        proof {
            assert(final(self).spec_samples() == old(self).spec_samples() + iterations);
            assert(forall|t: int|
                0 <= t < 64 ==> final(self).spec_bit_values()[t] == old(self).spec_bit_values()[t]
                    + bit_column(hashes@, t));
            let fs = *final(self);
            assert forall|t: int, k: int|
                0 <= t < 64 && 0 <= k < fs.spec_samples() implies (#[trigger] fs.bit_values@[t]@[k])
                <= 1 by {
                if k >= old(self).spec_samples() {
                    lemma_extracted_bit_le_one(hashes@[k - old(self).spec_samples()], t as u64);
                }
            }
        }
    }

    /// Computes the full 64 by 64 matrix of exact Pearson correlations
    /// between the per-position sample vectors, or nothing when no samples
    /// have been accumulated yet.
    ///
    /// Entry `(i, j)` is the correlation of rows `i` and `j`, which is
    /// itself absent exactly when either row has zero variance; the
    /// diagonal entries, when present, always read exactly one.
    pub fn results(&self) -> (r: Option<Vec<Vec<Option<Correlation>>>>)
        requires
            self.wf(),
        ensures
            r.is_some() <==> self.spec_samples() > 0,
            match r {
                Some(m) => {
                    &&& m@.len() == 64
                    &&& forall|i: int| 0 <= i < 64 ==> (#[trigger] m@[i])@.len() == 64
                    &&& forall|i: int, j: int|
                        0 <= i < 64 && 0 <= j < 64 ==> match (#[trigger] m@[i]@[j]) {
                            Some(c) => pearson_var(self.spec_rows()[i]) > 0 && pearson_var(
                                self.spec_rows()[j],
                            ) > 0 && c.wf() && c.num == pearson_num(
                                self.spec_rows()[i],
                                self.spec_rows()[j],
                            ) && c.var_a == pearson_var(self.spec_rows()[i]) && c.var_b
                                == pearson_var(self.spec_rows()[j]),
                            None => !(pearson_var(self.spec_rows()[i]) > 0 && pearson_var(
                                self.spec_rows()[j],
                            ) > 0),
                        }
                },
                None => true,
            },
    {
        if self.bit_values[0].len() == 0 {
            return None;
        }
        let rows = self.converted_rows();

        let mut matrix: Vec<Vec<Option<Correlation>>> = Vec::new();
        let mut i: usize = 0;
        while i < 64
            invariant
                0 <= i <= 64,
                self.wf(),
                rows@.len() == 64,
                forall|t: int| 0 <= t < 64 ==> #[trigger] rows@[t]@ == self.spec_rows()[t],
                matrix@.len() == i,
                forall|a: int| 0 <= a < i ==> (#[trigger] matrix@[a])@.len() == 64,
                forall|a: int, b: int|
                    0 <= a < i && 0 <= b < 64 ==> match (#[trigger] matrix@[a]@[b]) {
                        Some(c) => pearson_var(self.spec_rows()[a]) > 0 && pearson_var(
                            self.spec_rows()[b],
                        ) > 0 && c.wf() && c.num == pearson_num(
                            self.spec_rows()[a],
                            self.spec_rows()[b],
                        ) && c.var_a == pearson_var(self.spec_rows()[a]) && c.var_b == pearson_var(
                            self.spec_rows()[b],
                        ),
                        None => !(pearson_var(self.spec_rows()[a]) > 0 && pearson_var(
                            self.spec_rows()[b],
                        ) > 0),
                    },
            decreases 64 - i,
        {
            let mut line: Vec<Option<Correlation>> = Vec::new();
            let mut j: usize = 0;
            while j < 64
                invariant
                    0 <= j <= 64,
                    0 <= i < 64,
                    self.wf(),
                    rows@.len() == 64,
                    forall|t: int| 0 <= t < 64 ==> #[trigger] rows@[t]@ == self.spec_rows()[t],
                    line@.len() == j,
                    forall|b: int|
                        0 <= b < j ==> match (#[trigger] line@[b]) {
                            Some(c) => pearson_var(self.spec_rows()[i as int]) > 0 && pearson_var(
                                self.spec_rows()[b],
                            ) > 0 && c.wf() && c.num == pearson_num(
                                self.spec_rows()[i as int],
                                self.spec_rows()[b],
                            ) && c.var_a == pearson_var(self.spec_rows()[i as int]) && c.var_b
                                == pearson_var(self.spec_rows()[b]),
                            None => !(pearson_var(self.spec_rows()[i as int]) > 0 && pearson_var(
                                self.spec_rows()[b],
                            ) > 0),
                        },
                decreases 64 - j,
            {
                proof {
                    self.lemma_rows_fit(i as int, j as int);
                }
                line.push(pearson::correlation(&rows[i], &rows[j]));
                j = j + 1;
            }
            matrix.push(line);
            i = i + 1;
        }
        Some(matrix)
    }

    /// The verdict for the current samples: inconclusive before any sample
    /// has been accumulated or when any sample vector has zero variance
    /// (its correlations are undefined); otherwise the test fails exactly
    /// when some off-diagonal pair correlates, in magnitude, at or above
    /// the threshold, and passes otherwise.
    pub fn verdict(&self) -> (r: Verdict)
        requires
            self.wf(),
        ensures
            r == if self.spec_samples() == 0 {
                Verdict::Inconclusive
            } else if !(forall|i: int|
                0 <= i < 64 ==> pearson_var(#[trigger] self.spec_rows()[i]) > 0) {
                Verdict::Inconclusive
            } else if exists|i: int|
                0 <= i < 64 && row_exceeds(self.spec_rows(), i, self.spec_threshold()) {
                Verdict::Fail
            } else {
                Verdict::Pass
            },
    {
        if self.bit_values[0].len() == 0 {
            return Verdict::Inconclusive;
        }
        let rows = self.converted_rows();

        let mut i: usize = 0;
        while i < 64
            invariant
                0 <= i <= 64,
                self.wf(),
                self.spec_samples() > 0,
                rows@.len() == 64,
                forall|t: int| 0 <= t < 64 ==> #[trigger] rows@[t]@ == self.spec_rows()[t],
                forall|t: int| 0 <= t < i ==> pearson_var(#[trigger] self.spec_rows()[t]) > 0,
            decreases 64 - i,
        {
            proof {
                self.lemma_rows_fit(i as int, i as int);
            }
            if pearson::correlation(&rows[i], &rows[i]).is_none() {
                return Verdict::Inconclusive;
            }
            i = i + 1;
        }

        let mut any: bool = false;
        let mut a: usize = 0;
        while a < 64
            invariant
                0 <= a <= 64,
                self.wf(),
                self.spec_samples() > 0,
                rows@.len() == 64,
                forall|t: int| 0 <= t < 64 ==> #[trigger] rows@[t]@ == self.spec_rows()[t],
                forall|t: int| 0 <= t < 64 ==> pearson_var(#[trigger] self.spec_rows()[t]) > 0,
                any == exists|t: int|
                    0 <= t < a && row_exceeds(self.spec_rows(), t, self.spec_threshold()),
            decreases 64 - a,
        {
            let mut found: bool = false;
            let mut b: usize = 0;
            while b < 64
                invariant
                    0 <= b <= 64,
                    0 <= a < 64,
                    self.wf(),
                    self.spec_samples() > 0,
                    rows@.len() == 64,
                    forall|t: int| 0 <= t < 64 ==> #[trigger] rows@[t]@ == self.spec_rows()[t],
                    forall|t: int| 0 <= t < 64 ==> pearson_var(#[trigger] self.spec_rows()[t]) > 0,
                    found == exists|u: int|
                        0 <= u < b && u != a && pair_exceeds(
                            self.spec_rows(),
                            a as int,
                            u,
                            self.spec_threshold(),
                        ),
                decreases 64 - b,
            {
                if b != a {
                    proof {
                        self.lemma_rows_fit(a as int, b as int);
                    }
                    let c = match pearson::correlation(&rows[a], &rows[b]) {
                        Some(c) => c,
                        None => unreached(),
                    };
                    let exceeding = c.abs_ge_millionths(self.threshold);
                    proof {
                        assert(exceeding == pair_exceeds(
                            self.spec_rows(),
                            a as int,
                            b as int,
                            self.spec_threshold(),
                        ));
                    }
                    if exceeding {
                        found = true;
                    }
                }
                b = b + 1;
            }
            if found {
                any = true;
            }
            proof {
                if found {
                    assert(row_exceeds(self.spec_rows(), a as int, self.spec_threshold()));
                }
            }
            a = a + 1;
        }

        if any {
            Verdict::Fail
        } else {
            Verdict::Pass
        }
    }

    /// The sample vectors converted to integer rows for correlating.
    fn converted_rows(&self) -> (r: Vec<Vec<i64>>)
        requires
            self.wf(),
        ensures
            r@.len() == 64,
            forall|t: int| 0 <= t < 64 ==> #[trigger] r@[t]@ == self.spec_rows()[t],
    {
        let mut rows: Vec<Vec<i64>> = Vec::new();
        let mut i: usize = 0;
        while i < 64
            invariant
                0 <= i <= 64,
                self.wf(),
                rows@.len() == i,
                forall|t: int| 0 <= t < i ==> #[trigger] rows@[t]@ == self.spec_rows()[t],
            decreases 64 - i,
        {
            let current = &self.bit_values[i];
            let mut row: Vec<i64> = Vec::new();
            let mut k: usize = 0;
            while k < current.len()
                invariant
                    0 <= k <= current@.len(),
                    row@.len() == k,
                    forall|u: int| 0 <= u < k ==> #[trigger] row@[u] == current@[u] as i64,
                decreases current@.len() - k,
            {
                row.push(current[k] as i64);
                k = k + 1;
            }
            proof {
                assert(row@ =~= row_as_samples(self.spec_bit_values()[i as int]));
            }
            rows.push(row);
            i = i + 1;
        }
        rows
    }

    /// Any two of the test's integer rows satisfy the size bound that exact
    /// correlation needs: their entries are zeros and ones and their length
    /// is capped.
    proof fn lemma_rows_fit(&self, i: int, j: int)
        requires
            self.wf(),
            0 <= i < 64,
            0 <= j < 64,
        ensures
            pearson::pearson_fits(self.spec_rows()[i], self.spec_rows()[j]),
    {
        let a = self.spec_rows()[i];
        let b = self.spec_rows()[j];
        assert(mag_le(a, 1));
        assert(mag_le(b, 1));
        assert(a.len() * 1 <= 0x80000 && b.len() * 1 <= 0x80000);
    }
}

/// Computes `iterations` digests: one fresh input from the provider for
/// each, hashed with a fresh hasher.
pub fn compute_hashes<H: HashCapability, P: Provider>(
    build_hasher: &H,
    provider: &mut P,
    iterations: usize,
) -> (r: Vec<u64>)
    ensures
        r@.len() == iterations,
{
    let inputs = provider.provide(iterations);
    let mut hashes: Vec<u64> = Vec::new();
    let mut k: usize = 0;
    while k < inputs.len()
        invariant
            0 <= k <= inputs@.len(),
            inputs@.len() == iterations,
            hashes@.len() == k,
        decreases inputs@.len() - k,
    {
        hashes.push(build_hasher.hash_one(inputs[k].as_slice()));
        k = k + 1;
    }
    hashes
}

/// Extracts each bit position within a set of hashes to a vector of its
/// own: the first returned vector holds bit 0 of every hash in order, the
/// second holds bit 1, and so on through bit 63.
pub fn extract_bit_values_from_hashes(hashes: &Vec<u64>) -> (r: Vec<Vec<u8>>)
    ensures
        r@.len() == 64,
        forall|i: int| 0 <= i < 64 ==> (#[trigger] r@[i])@ == bit_column(hashes@, i),
{
    let mut out: Vec<Vec<u8>> = Vec::new();
    let mut i: usize = 0;
    while i < 64
        invariant
            0 <= i <= 64,
            out@.len() == i,
            forall|t: int| 0 <= t < i ==> (#[trigger] out@[t])@ == bit_column(hashes@, t),
        decreases 64 - i,
    {
        let mut column: Vec<u8> = Vec::new();
        let mut k: usize = 0;
        while k < hashes.len()
            invariant
                0 <= k <= hashes@.len(),
                0 <= i < 64,
                column@.len() == k,
                forall|u: int|
                    0 <= u < k ==> #[trigger] column@[u] == ((hashes@[u] >> (i as u64)) & 1) as u8,
            decreases hashes@.len() - k,
        {
            let bit: u8 = ((hashes[k] >> (i as u64)) & 1) as u8;
            column.push(bit);
            k = k + 1;
        }
        proof {
            assert(column@ =~= bit_column(hashes@, i as int));
        }
        out.push(column);
        i = i + 1;
    }
    out
}

/// Populates the boilerplate report information for a bitwise correlation
/// test section: its title and its description, with the modules left for
/// the caller to push.
pub fn get_report_base() -> (r: Builder)
    ensures
        r.title is Some,
        r.description is Some,
        r.modules@.len() == 0,
{
    let builder = Builder::new();
    let builder = match builder.title("Bitwise Pearson Correlation".to_owned()) {
        Ok(b) => b,
        Err(_) => unreached(),
    };
    let description =
        "The bitwise correlation test assesses the correlation between each pair of output bit positions across a set of hashes. Every iteration hashes a fresh input from the data provider; each output bit's values across all hashes form that position's sample vector, and the Pearson correlation coefficient is computed for every pair of vectors. A good hash shows no strong correlation between distinct positions, so the test fails when any off-diagonal coefficient reaches the configured threshold in magnitude. Each position correlates perfectly with itself, so the diagonal of the matrix reads exactly one and serves as a self-check.".to_owned();
    let builder = match builder.description(description) {
        Ok(b) => b,
        Err(_) => unreached(),
    };
    builder
}

} // verus!
