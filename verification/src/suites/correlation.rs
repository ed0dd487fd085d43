//! The correlation test suite.

use vstd::prelude::*;

pub mod suite;

use crate::analyses::correlation::Test;
use crate::analyses::correlation::bitwise;
use crate::hash::HashCapability;
use crate::providers::Provider;

verus! {

/// A correlation test suite.
pub struct Suite<'a, H: HashCapability> {
    /// The hash capability under evaluation.
    build_hasher: &'a H,
    /// The tests that have been run within this suite.
    tests: Vec<Test>,
}

impl<'a, H: HashCapability> Suite<'a, H> {
    /// The completed tests, in invocation order.
    pub closed spec fn spec_tests(&self) -> Seq<Test> {
        self.tests@
    }

    /// A suite over the given hash capability with no tests run yet.
    pub fn empty(build_hasher: &'a H) -> (r: Suite<'a, H>)
        ensures
            r.spec_tests().len() == 0,
    {
        Suite { build_hasher, tests: Vec::new() }
    }

    /// Gets the hash capability for this [`Suite`].
    pub fn build_hasher(&self) -> &H {
        self.build_hasher
    }

    /// Gets the [`Test`]s run within this [`Suite`].
    pub fn tests(&self) -> (r: &Vec<Test>)
        ensures
            r@ == self.spec_tests(),
    {
        &self.tests
    }

    /// Consumes `self` and returns the [`Test`]s run within this [`Suite`].
    pub fn into_tests(self) -> (r: Vec<Test>)
        ensures
            r@ == self.spec_tests(),
    {
        self.tests
    }

    /// Runs a bitwise correlation test within the [`Suite`]: builds a test
    /// with the given threshold, accumulates one batch of iterations from
    /// the provider against the suite's hash capability, and appends the
    /// completed test.
    ///
    /// The threshold is validated as the test is built; on an error the
    /// suite is unchanged.
    pub fn run_bitwise_test<P: Provider>(
        &mut self,
        provider: &mut P,
        iterations: usize,
        threshold: u32,
    ) -> (r: Result<(), bitwise::Error>)
        requires
            iterations <= 0x80000,
        ensures
            match r {
                Ok(()) => {
                    &&& threshold <= 1_000_000
                    &&& final(self).spec_tests().len() == old(self).spec_tests().len() + 1
                    &&& final(self).spec_tests().subrange(
                        0,
                        old(self).spec_tests().len() as int,
                    ) == old(self).spec_tests()
                    &&& match final(self).spec_tests().last() {
                        Test::Bitwise(t) => t.wf() && t.spec_samples() == iterations
                            && t.spec_threshold() == threshold,
                    }
                },
                Err(e) => {
                    &&& final(self).spec_tests() == old(self).spec_tests()
                    &&& match e {
                        bitwise::Error::InvalidThreshold(v) => v == threshold && threshold
                            > 1_000_000,
                    }
                },
            },
    {
        let mut test = match bitwise::Test::new(threshold) {
            Ok(t) => t,
            Err(e) => {
                return Err(e);
            },
        };
        test.run(self.build_hasher, provider, iterations);

        let ghost before = self.tests@;
        self.tests.push(Test::Bitwise(test));
        proof {
            assert(self.tests@.subrange(0, before.len() as int) =~= before);
        }
        Ok(())
    }
}

} // verus!
