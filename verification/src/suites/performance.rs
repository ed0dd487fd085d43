//! The performance test suite.

use vstd::prelude::*;

pub mod suite;

use crate::analyses::performance::Test;
use crate::analyses::performance::speed;
use crate::hash::HashCapability;
use crate::providers::Provider;

verus! {

/// A performance test suite.
pub struct Suite<'a, H: HashCapability, P: Provider> {
    /// The hash capability under evaluation.
    build_hasher: &'a H,
    /// The tests that have been run within this suite.
    tests: Vec<Test<P>>,
}

impl<'a, H: HashCapability, P: Provider> Suite<'a, H, P> {
    /// The completed tests, in invocation order.
    pub closed spec fn spec_tests(&self) -> Seq<Test<P>> {
        self.tests@
    }

    /// A suite over the given hash capability with no tests run yet.
    pub fn empty(build_hasher: &'a H) -> (r: Suite<'a, H, P>)
        ensures
            r.spec_tests().len() == 0,
    {
        Suite { build_hasher, tests: Vec::new() }
    }

    /// Gets the hash capability for this [`Suite`].
    pub fn build_hasher(&self) -> &H {
        self.build_hasher
    }

    /// Gets the [`Test`]s run within this [`Suite`].
    pub fn tests(&self) -> (r: &Vec<Test<P>>)
        ensures
            r@ == self.spec_tests(),
    {
        &self.tests
    }

    /// Consumes `self` and returns the [`Test`]s run within this [`Suite`].
    pub fn into_tests(self) -> (r: Vec<Test<P>>)
        ensures
            r@ == self.spec_tests(),
    {
        self.tests
    }

    /// Runs a speed test within the [`Suite`]: builds a test over the
    /// given provider, payload size and threshold, performs the requested
    /// number of timed iterations against the suite's hash capability, and
    /// appends the completed test.
    ///
    /// The configuration is validated as the test is built; on an error
    /// the suite is unchanged.
    pub fn run_speed_test(
        &mut self,
        provider: P,
        iterations: u64,
        desired_data_size: usize,
        threshold: u64,
    ) -> (r: Result<(), speed::Error>)
        requires
            provider.spec_bytes_per_input() >= 1,
            desired_data_size + provider.spec_bytes_per_input() <= usize::MAX,
            iterations <= usize::MAX,
        ensures
            match r {
                Ok(()) => {
                    &&& desired_data_size >= 1
                    &&& final(self).spec_tests().len() == old(self).spec_tests().len() + 1
                    &&& final(self).spec_tests().subrange(
                        0,
                        old(self).spec_tests().len() as int,
                    ) == old(self).spec_tests()
                    &&& match final(self).spec_tests().last() {
                        Test::Speed(t) => {
                            &&& t.wf()
                            &&& t.spec_results().len() == iterations
                            &&& t.spec_desired_data_size() == desired_data_size
                            &&& t.spec_threshold() == threshold
                        },
                    }
                },
                Err(e) => {
                    &&& final(self).spec_tests() == old(self).spec_tests()
                    &&& e == speed::Error::InvalidDataSize
                    &&& desired_data_size == 0
                },
            },
    {
        let mut test = match speed::Test::new(provider, desired_data_size, threshold) {
            Ok(t) => t,
            Err(e) => {
                return Err(e);
            },
        };
        test.run(self.build_hasher, iterations);

        let ghost before = self.tests@;
        self.tests.push(Test::Speed(test));
        proof {
            assert(self.tests@.subrange(0, before.len() as int) =~= before);
        }
        Ok(())
    }
}

} // verus!
