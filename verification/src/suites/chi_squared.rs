//! The chi-squared test suite.

use vstd::prelude::*;

pub mod suite;

use crate::analyses::chi_squared::Test;
use crate::analyses::chi_squared::goodness_of_fit;
use crate::hash::HashCapability;
use crate::providers::Provider;
use crate::statistics::sum_of;

verus! {

/// A chi-squared test suite.
pub struct Suite<'a, H: HashCapability, P: Provider> {
    /// The hash capability under evaluation.
    build_hasher: &'a H,
    /// The tests that have been run within this suite.
    tests: Vec<Test<P>>,
    /// The number of buckets to use within each test.
    buckets: usize,
}

impl<'a, H: HashCapability, P: Provider> Suite<'a, H, P> {
    /// The completed tests, in invocation order.
    pub closed spec fn spec_tests(&self) -> Seq<Test<P>> {
        self.tests@
    }

    /// The bucket count the suite's tests are created with.
    pub closed spec fn spec_buckets(&self) -> usize {
        self.buckets
    }

    /// A suite over the given hash capability with no tests run yet.
    pub fn empty(build_hasher: &'a H, buckets: usize) -> (r: Suite<'a, H, P>)
        ensures
            r.spec_tests().len() == 0,
            r.spec_buckets() == buckets,
    {
        Suite { build_hasher, tests: Vec::new(), buckets }
    }

    /// Gets the number of buckets for the tests run within this [`Suite`].
    pub fn buckets(&self) -> (r: usize)
        ensures
            r == self.spec_buckets(),
    {
        self.buckets
    }

    /// Gets the hash capability for this [`Suite`].
    pub fn build_hasher(&self) -> &H {
        self.build_hasher
    }

    /// Gets the [`Test`]s run within this [`Suite`].
    pub fn tests(&self) -> (r: &Vec<Test<P>>)
        ensures
            r@ == self.spec_tests(),
    {
        &self.tests
    }

    /// Consumes `self` and returns the [`Test`]s run within this [`Suite`].
    pub fn into_tests(self) -> (r: Vec<Test<P>>)
        ensures
            r@ == self.spec_tests(),
    {
        self.tests
    }

    /// Runs a goodness-of-fit test within the [`Suite`]: builds a test over
    /// the given provider and the suite's bucket count, performs the
    /// requested number of iterations against the suite's hash capability,
    /// and appends the completed test.
    ///
    /// The configuration is validated as the test is built; on an error the
    /// suite is unchanged.
    pub fn run_goodness_of_fit(&mut self, provider: P, iterations: u64, threshold: u32) -> (r:
        Result<(), goodness_of_fit::Error>)
        requires
            iterations < u64::MAX,
        ensures
            match r {
                Ok(()) => {
                    &&& old(self).spec_buckets() >= 1
                    &&& threshold <= 1_000_000
                    &&& final(self).spec_tests().len() == old(self).spec_tests().len() + 1
                    &&& final(self).spec_tests().subrange(
                        0,
                        old(self).spec_tests().len() as int,
                    ) == old(self).spec_tests()
                    &&& match final(self).spec_tests().last() {
                        Test::GoodnessOfFit(t) => {
                            &&& t.wf()
                            &&& t.spec_buckets().len() == old(self).spec_buckets()
                            &&& sum_of(t.spec_buckets()) == iterations
                            &&& t.spec_threshold() == threshold
                        },
                    }
                },
                Err(e) => {
                    &&& final(self).spec_tests() == old(self).spec_tests()
                    &&& match e {
                        goodness_of_fit::Error::InvalidBuckets => old(self).spec_buckets() == 0,
                        goodness_of_fit::Error::InvalidThreshold(v) => old(self).spec_buckets()
                            >= 1 && v == threshold && threshold > 1_000_000,
                    }
                },
            },
            final(self).spec_buckets() == old(self).spec_buckets(),
    {
        let mut test = match goodness_of_fit::Test::new(provider, self.buckets, threshold) {
            Ok(t) => t,
            Err(e) => {
                return Err(e);
            },
        };
        proof {
            crate::statistics::lemma_sum_of_zeros(test.spec_buckets());
        }

        let mut i: u64 = 0;
        while i < iterations
            invariant
                0 <= i <= iterations < u64::MAX,
                test.wf(),
                sum_of(test.spec_buckets()) == i,
                test.spec_buckets().len() == old(self).spec_buckets(),
                test.spec_threshold() == threshold,
            decreases iterations - i,
        {
            test.single_iteration(self.build_hasher);
            i = i + 1;
        }

        let ghost before = self.tests@;
        self.tests.push(Test::GoodnessOfFit(test));
        proof {
            assert(self.tests@.subrange(0, before.len() as int) =~= before);
        }
        Ok(())
    }
}

} // verus!
