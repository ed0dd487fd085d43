//! The avalanching test suite.

use vstd::prelude::*;

pub mod suite;

use crate::analyses::avalanche::Test;
use crate::analyses::avalanche::sac;
use crate::hash::HashCapability;
use crate::providers::Provider;

verus! {

/// An error related to an avalanche [`Suite`].
#[derive(Clone, Copy, Debug, PartialEq, Eq, Structural)]
pub enum Error {
    /// An error with the strict avalanche criterion test.
    StrictAvalancheCriterion(sac::Error),
}

/// An avalanche test suite.
pub struct Suite<'a, H: HashCapability, P: Provider> {
    /// The hash capability under evaluation.
    build_hasher: &'a H,
    /// The tests that have been run within this suite.
    tests: Vec<Test<P>>,
}

impl<'a, H: HashCapability, P: Provider> Suite<'a, H, P> {
    /// The completed tests, in invocation order.
    pub closed spec fn spec_tests(&self) -> Seq<Test<P>> {
        self.tests@
    }

    /// A suite over the given hash capability with no tests run yet.
    pub fn empty(build_hasher: &'a H) -> (r: Suite<'a, H, P>)
        ensures
            r.spec_tests().len() == 0,
    {
        Suite { build_hasher, tests: Vec::new() }
    }

    /// Gets the hash capability for this [`Suite`].
    pub fn build_hasher(&self) -> &H {
        self.build_hasher
    }

    /// Gets the [`Test`]s run within this [`Suite`].
    pub fn tests(&self) -> (r: &Vec<Test<P>>)
        ensures
            r@ == self.spec_tests(),
    {
        &self.tests
    }

    /// Consumes `self` and returns the [`Test`]s run within this [`Suite`].
    pub fn into_tests(self) -> (r: Vec<Test<P>>)
        ensures
            r@ == self.spec_tests(),
    {
        self.tests
    }

    /// Runs a strict avalanche criterion test within the [`Suite`]: builds
    /// a test over the given provider and configuration, runs the requested
    /// number of experiments against the suite's hash capability, and
    /// appends the completed test.
    ///
    /// The configuration is validated as the test is built, and an
    /// experiment fails only over a provider of empty sequences; either way
    /// the error is passed along and the suite is unchanged.
    pub fn run_strict_avalanche_criterion_test(
        &mut self,
        provider: P,
        experiments: u64,
        iterations_per_experiment: u64,
        max_deviance: u32,
    ) -> (r: Result<(), Error>)
        requires
            provider.spec_bytes_per_input() <= usize::MAX / 8,
            experiments * iterations_per_experiment <= u64::MAX,
        ensures
            match r {
                Ok(()) => {
                    &&& iterations_per_experiment >= 1
                    &&& max_deviance <= 1_000_000
                    &&& (experiments >= 1 ==> provider.spec_bytes_per_input() > 0)
                    &&& final(self).spec_tests().len() == old(self).spec_tests().len() + 1
                    &&& final(self).spec_tests().subrange(
                        0,
                        old(self).spec_tests().len() as int,
                    ) == old(self).spec_tests()
                    &&& match final(self).spec_tests().last() {
                        Test::StrictAvalancheCriterion(t) => {
                            &&& t.spec_total_experiments() == experiments
                            &&& t.spec_iterations_per_experiment() == iterations_per_experiment
                            &&& t.spec_max_deviance() == max_deviance
                        },
                    }
                },
                Err(Error::StrictAvalancheCriterion(e)) => {
                    &&& final(self).spec_tests() == old(self).spec_tests()
                    &&& match e {
                        sac::Error::InvalidMaxDeviance(v) => v == max_deviance && max_deviance
                            > 1_000_000,
                        sac::Error::InvalidIterations => max_deviance <= 1_000_000
                            && iterations_per_experiment == 0,
                        sac::Error::Experiment(x) => x == sac::experiment::Error::EmptyData
                            && provider.spec_bytes_per_input() == 0 && experiments >= 1,
                    }
                },
            },
    {
        let mut test = match sac::Test::try_new(
            provider,
            iterations_per_experiment,
            max_deviance,
        ) {
            Ok(t) => t,
            Err(e) => {
                return Err(Error::StrictAvalancheCriterion(e));
            },
        };

        let mut i: u64 = 0;
        while i < experiments
            invariant
                0 <= i <= experiments,
                test.wf(),
                test.spec_total_experiments() == i,
                test.spec_iterations_per_experiment() == iterations_per_experiment,
                test.spec_max_deviance() == max_deviance,
                test.spec_bytes_per_input() == provider.spec_bytes_per_input(),
                provider.spec_bytes_per_input() <= usize::MAX / 8,
                provider.spec_bytes_per_input() > 0 || i == 0,
                experiments * iterations_per_experiment <= u64::MAX,
            decreases experiments - i,
        {
            proof {
                assert((i + 1) * iterations_per_experiment <= experiments
                    * iterations_per_experiment) by (nonlinear_arith)
                    requires
                        0 <= i < experiments,
                        iterations_per_experiment >= 0,
                ;
            }
            match test.run_single_experiment(self.build_hasher) {
                Ok(()) => (),
                Err(e) => {
                    return Err(Error::StrictAvalancheCriterion(e));
                },
            }
            i = i + 1;
        }

        let ghost before = self.tests@;
        self.tests.push(Test::StrictAvalancheCriterion(test));
        proof {
            assert(self.tests@.subrange(0, before.len() as int) =~= before);
        }
        Ok(())
    }
}

} // verus!
