//! The chi-squared goodness-of-fit test.
//!
//! Each iteration hashes one fresh input and assigns the digest to one of
//! `B` buckets by remainder; a good hash spreads digests uniformly. The
//! accumulated bucket counters reduce to the exact chi-squared statistic,
//! and the verdict compares the p-value derived from it (by a chi-squared
//! CDF the caller supplies) against the configured significance threshold.

use vstd::prelude::*;
use vstd::pervasive::unreached;

use crate::hash::HashCapability;
use crate::providers::Provider;
use crate::report::section::test::Builder;
use crate::report::section::test::module::Verdict;
use crate::statistics::Ratio;
use crate::statistics::chi_squared::chi_squared_uniform;
use crate::statistics::chi_squared::sum_sq_dev;
use crate::statistics::lemma_element_le_sum;
use crate::statistics::lemma_sum_of_update;
use crate::statistics::sum_of;

verus! {

/// An error constructing a goodness-of-fit [`Test`].
#[derive(Clone, Copy, Debug, PartialEq, Eq, Structural)]
pub enum Error {
    /// The bucket count must be non-zero.
    InvalidBuckets,
    /// The significance threshold, in millionths, must not exceed one
    /// whole.
    InvalidThreshold(u32),
}

/// A chi-squared goodness-of-fit test.
#[derive(Debug)]
pub struct Test<P: Provider> {
    /// The data provider.
    provider: P,
    /// The observed count of digests assigned to each bucket.
    buckets: Vec<u64>,
    /// The significance threshold, in millionths.
    threshold: u32,
}

impl<P: Provider> Test<P> {
    /// A well-formed test: at least one bucket, and a threshold that is a
    /// fraction. Constructors establish this and every method preserves it.
    pub closed spec fn wf(&self) -> bool {
        self.buckets@.len() >= 1 && self.threshold <= 1_000_000
    }

    /// The observed bucket counters.
    pub closed spec fn spec_buckets(&self) -> Seq<u64> {
        self.buckets@
    }

    /// The configured significance threshold in millionths.
    pub closed spec fn spec_threshold(&self) -> u32 {
        self.threshold
    }

    /// The number of iterations performed so far. The buckets conserve
    /// iterations: a fresh test totals zero, and each call of
    /// [`Test::single_iteration`] raises the total by exactly one (its
    /// contract below), so after `k` calls the bucket total is exactly `k`.
    pub open spec fn spec_total_iterations(&self) -> int {
        sum_of(self.spec_buckets())
    }

    /// The fixed byte length of the sequences the test's provider hands
    /// out.
    pub closed spec fn spec_bytes_per_input(&self) -> usize {
        self.provider.spec_bytes_per_input()
    }

    /// Creates a new [`Test`] with `num_buckets` empty buckets.
    ///
    /// The bucket count must be non-zero and the threshold, given in
    /// millionths, must describe a fraction in `[0, 1]`; each violation is
    /// reported as its own error and no test is produced.
    pub fn new(provider: P, num_buckets: usize, threshold: u32) -> (r: Result<Test<P>, Error>)
        ensures
            match r {
                Ok(t) => {
                    &&& t.wf()
                    &&& num_buckets >= 1
                    &&& threshold <= 1_000_000
                    &&& t.spec_buckets() == Seq::<u64>::new(num_buckets as nat, |j: int| 0u64)
                    &&& t.spec_threshold() == threshold
                    &&& t.spec_bytes_per_input() == provider.spec_bytes_per_input()
                },
                Err(Error::InvalidBuckets) => num_buckets == 0,
                Err(Error::InvalidThreshold(v)) => num_buckets >= 1 && v == threshold && threshold
                    > 1_000_000,
            },
    {
        if num_buckets == 0 {
            return Err(Error::InvalidBuckets);
        }
        if threshold > 1_000_000 {
            return Err(Error::InvalidThreshold(threshold));
        }
        let mut buckets: Vec<u64> = Vec::new();
        let mut j: usize = 0;
        while j < num_buckets
            invariant
                buckets@.len() == j <= num_buckets,
                forall|t: int| 0 <= t < j ==> #[trigger] buckets@[t] == 0,
            decreases num_buckets - j,
        {
            buckets.push(0);
            j = j + 1;
        }
        proof {
            assert(buckets@ =~= Seq::<u64>::new(num_buckets as nat, |j: int| 0u64));
        }
        Ok(Test { provider, buckets, threshold })
    }

    /// Gets the data provider for this [`Test`].
    pub fn provider(&self) -> (r: &P)
        ensures
            r.spec_bytes_per_input() == self.spec_bytes_per_input(),
    {
        &self.provider
    }

    /// Gets the buckets from the [`Test`].
    pub fn buckets(&self) -> (r: &Vec<u64>)
        ensures
            r@ == self.spec_buckets(),
    {
        &self.buckets
    }

    /// Gets the significance threshold, in millionths, from the [`Test`].
    pub fn threshold(&self) -> (r: u32)
        ensures
            r == self.spec_threshold(),
    {
        self.threshold
    }

    /// Performs a single iteration of the test: draws one sample, digests
    /// it, and increments the bucket the digest falls in.
    ///
    /// Exactly one bucket goes up by one, so the bucket total always equals
    /// the number of iterations performed.
    pub fn single_iteration<H: HashCapability>(&mut self, build_hasher: &H)
        requires
            old(self).wf(),
            old(self).spec_total_iterations() < u64::MAX,
        ensures
            final(self).wf(),
            final(self).spec_threshold() == old(self).spec_threshold(),
            final(self).spec_bytes_per_input() == old(self).spec_bytes_per_input(),
            final(self).spec_buckets().len() == old(self).spec_buckets().len(),
            final(self).spec_total_iterations() == old(self).spec_total_iterations() + 1,
            exists|i: int|
                0 <= i < old(self).spec_buckets().len() && final(self).spec_buckets() == old(
                    self,
                ).spec_buckets().update(i, (old(self).spec_buckets()[i] + 1) as u64),
    {
        let mut batch = self.provider.provide(1);
        let data = match batch.pop() {
            Some(d) => d,
            None => unreached(),
        };
        let digest: u64 = build_hasher.hash_one(data.as_slice());
        let bucket: usize = (digest % (self.buckets.len() as u64)) as usize;

        proof {
            lemma_element_le_sum(self.buckets@, bucket as int);
            lemma_sum_of_update(
                self.buckets@,
                bucket as int,
                (self.buckets@[bucket as int] + 1) as u64,
            );
        }
        let bumped: u64 = self.buckets[bucket] + 1;
        self.buckets[bucket] = bumped;
    }

    /// The exact chi-squared statistic for the current buckets, or nothing
    /// when the expected count per bucket is below five.
    pub fn statistic(&self) -> (r: Option<Ratio>)
        requires
            self.wf(),
            self.spec_buckets().len() * sum_of(self.spec_buckets()) <= 0x8000_0000_0000,
        ensures
            r.is_some() <==> sum_of(self.spec_buckets()) >= 5 * self.spec_buckets().len(),
            match r {
                Some(c) => c.wf() && c.num == sum_sq_dev(
                    self.spec_buckets(),
                    self.spec_buckets().len() as int,
                    sum_of(self.spec_buckets()),
                ) && c.den == self.spec_buckets().len() * sum_of(self.spec_buckets()),
                None => true,
            },
    {
        chi_squared_uniform(&self.buckets)
    }

    /// The verdict for a p-value derived from the statistic, in millionths:
    /// passing means the p-value strictly exceeds the significance
    /// threshold (uniformity cannot be rejected), and a missing p-value is
    /// inconclusive, never a pass or a fail.
    pub fn verdict(&self, p_value_millionths: Option<u64>) -> (r: Verdict)
        ensures
            r == match p_value_millionths {
                None => Verdict::Inconclusive,
                Some(p) => if p > self.spec_threshold() as u64 {
                    Verdict::Pass
                } else {
                    Verdict::Fail
                },
            },
    {
        match p_value_millionths {
            None => Verdict::Inconclusive,
            Some(p) => if p > (self.threshold as u64) {
                Verdict::Pass
            } else {
                Verdict::Fail
            },
        }
    }
}

/// Populates the boilerplate report information for a goodness-of-fit test
/// section: its title and its description, with the modules left for the
/// caller to push. The provider's name is woven into the title.
pub fn get_report_base(provider_name: &str) -> (r: Builder)
    ensures
        r.title is Some,
        r.description is Some,
        r.modules@.len() == 0,
{
    let mut title = "Goodness of Fit / ".to_owned();
    title.append(provider_name);
    let builder = Builder::new();
    let builder = match builder.title(title) {
        Ok(b) => b,
        Err(_) => unreached(),
    };
    let description =
        "The chi-squared goodness-of-fit test assesses whether the observed assignment of hashed values to buckets differs significantly from a random, uniform assignment. Each iteration hashes a fresh input from the data provider and increments the bucket given by the remainder of the digest by the bucket count. The chi-squared statistic quantifies the divergence of the observed counts from the uniform expectation; the p-value derived from it is the probability of seeing a divergence at least this large under uniformity, and the test fails when that probability falls to or below the configured significance threshold.".to_owned();
    let builder = match builder.description(description) {
        Ok(b) => b,
        Err(_) => unreached(),
    };
    builder
}

} // verus!
