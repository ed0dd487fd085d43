//! The strict avalanche criterion test.
//!
//! An ideal hash flips each output bit with probability one half whenever a
//! single input bit flips. The test runs experiments that flip one random
//! input bit at a time and counts, for each of the 64 output bit positions,
//! how often that output bit changed; the verdict checks that every
//! position's flip fraction stays within a configured deviance of one half.

use vstd::prelude::*;
use vstd::pervasive::unreached;

pub mod experiment;

pub use experiment::Experiment;

use crate::hash::HashCapability;
use crate::providers::Provider;
use crate::report::section::test::Builder;

verus! {

/// An error related to a strict avalanche criterion [`Test`].
#[derive(Clone, Copy, Debug, PartialEq, Eq, Structural)]
pub enum Error {
    /// An experiment error.
    Experiment(experiment::Error),
    /// An invalid value was passed for the max deviance: the fraction, in
    /// millionths, must not exceed one whole.
    InvalidMaxDeviance(u32),
    /// The iteration count per experiment must be non-zero.
    InvalidIterations,
}

/// `|2*flips - total|`, the doubled distance of `flips` from `total/2`.
pub open spec fn abs_diff_twice(flips: int, total: int) -> int {
    if 2 * flips >= total {
        2 * flips - total
    } else {
        total - 2 * flips
    }
}

/// Whether the flip counter `flips` out of `total` iterations lies within
/// `deviance` millionths of the ideal fraction one half: exactly
/// `|flips/total - 1/2| <= deviance/1000000`, cleared of divisions.
pub open spec fn bias_within(flips: int, total: int, deviance: int) -> bool {
    1_000_000 * abs_diff_twice(flips, total) <= 2 * total * deviance
}

/// The bias of a flip counter in millionths, rounded down: the exact value
/// is `|flips/total - 1/2|`, and this is that fraction scaled by one million
/// and floored.
pub open spec fn bias_millionths(flips: int, total: int) -> int {
    (abs_diff_twice(flips, total) * 1_000_000) / (2 * total)
}

/// The results of a strict avalanche criterion [`Test`].
#[derive(Debug, PartialEq, Eq)]
pub struct Results {
    /// Whether the test succeeded: every bit's bias within the allowed
    /// deviance.
    pub succeeded: bool,
    /// The index of a most biased bit and its bias in millionths. The
    /// earliest such index is reported.
    pub max_bias: (usize, u64),
    /// Each bit position with its bias in millionths.
    pub bit_bias_offsets: Vec<(usize, u64)>,
}

/// A strict avalanche criterion test.
#[derive(Debug)]
pub struct Test<P: Provider> {
    /// The data provider.
    provider: P,
    /// The total number of flips for each bit in the output hash.
    bit_flips: Vec<u64>,
    /// The number of iterations within each experiment.
    iterations_per_experiment: u64,
    /// The total number of experiments that have been carried out.
    total_experiments: u64,
    /// The maximum deviance, in millionths, that any single bit's flip
    /// fraction may have from one half for the test to pass.
    max_deviance: u32,
}

impl<P: Provider> Test<P> {
    /// A well-formed test: 64 counters, each at most one per iteration
    /// run, and a meaningful configuration. Constructors establish this and
    /// every method preserves it.
    pub closed spec fn wf(&self) -> bool {
        &&& self.bit_flips@.len() == 64
        &&& self.iterations_per_experiment >= 1
        &&& self.max_deviance <= 1_000_000
        &&& self.total_experiments * self.iterations_per_experiment <= u64::MAX
        &&& forall|j: int|
            0 <= j < 64 ==> #[trigger] self.bit_flips@[j] <= self.total_experiments
                * self.iterations_per_experiment
    }

    /// The per-output-bit flip counters.
    pub closed spec fn spec_bit_flips(&self) -> Seq<u64> {
        self.bit_flips@
    }

    /// The configured iterations per experiment.
    pub closed spec fn spec_iterations_per_experiment(&self) -> u64 {
        self.iterations_per_experiment
    }

    /// The number of experiments run so far.
    pub closed spec fn spec_total_experiments(&self) -> u64 {
        self.total_experiments
    }

    /// The configured maximum deviance in millionths.
    pub closed spec fn spec_max_deviance(&self) -> u32 {
        self.max_deviance
    }

    /// The fixed byte length of the sequences the test's provider hands
    /// out.
    pub closed spec fn spec_bytes_per_input(&self) -> usize {
        self.provider.spec_bytes_per_input()
    }

    /// Attempts to create a new [`Test`] with empty accumulators.
    ///
    /// The iteration count must be non-zero and the max deviance, given in
    /// millionths, must describe a fraction in `[0, 1]`; each violation is
    /// reported as its own error and no test is produced.
    pub fn try_new(provider: P, iterations_per_experiment: u64, max_deviance: u32) -> (r: Result<
        Test<P>,
        Error,
    >)
        ensures
            match r {
                Ok(t) => {
                    &&& t.wf()
                    &&& iterations_per_experiment >= 1
                    &&& max_deviance <= 1_000_000
                    &&& t.spec_bit_flips() == Seq::<u64>::new(64, |j: int| 0u64)
                    &&& t.spec_iterations_per_experiment() == iterations_per_experiment
                    &&& t.spec_total_experiments() == 0
                    &&& t.spec_max_deviance() == max_deviance
                    &&& t.spec_bytes_per_input() == provider.spec_bytes_per_input()
                },
                Err(Error::InvalidMaxDeviance(v)) => v == max_deviance && max_deviance > 1_000_000,
                Err(Error::InvalidIterations) => max_deviance <= 1_000_000
                    && iterations_per_experiment == 0,
                Err(_) => false,
            },
    {
        if max_deviance > 1_000_000 {
            return Err(Error::InvalidMaxDeviance(max_deviance));
        }
        if iterations_per_experiment == 0 {
            return Err(Error::InvalidIterations);
        }
        let mut bit_flips: Vec<u64> = Vec::new();
        let mut j: usize = 0;
        while j < 64
            invariant
                bit_flips@.len() == j <= 64,
                forall|t: int| 0 <= t < j ==> #[trigger] bit_flips@[t] == 0,
            decreases 64 - j,
        {
            bit_flips.push(0);
            j = j + 1;
        }
        proof {
            assert(bit_flips@ =~= Seq::<u64>::new(64, |j: int| 0u64));
        }
        Ok(
            Test {
                provider,
                bit_flips,
                iterations_per_experiment,
                total_experiments: 0,
                max_deviance,
            },
        )
    }

    /// Gets the data provider for this [`Test`].
    pub fn provider(&self) -> (r: &P)
        ensures
            r.spec_bytes_per_input() == self.spec_bytes_per_input(),
    {
        &self.provider
    }

    /// Gets the current number of flips for each output bit in the [`Test`].
    pub fn bit_flips(&self) -> (r: &Vec<u64>)
        ensures
            r@ == self.spec_bit_flips(),
    {
        &self.bit_flips
    }

    /// Gets the number of iterations within each experiment in the [`Test`].
    pub fn iterations_per_experiment(&self) -> (r: u64)
        ensures
            r == self.spec_iterations_per_experiment(),
    {
        self.iterations_per_experiment
    }

    /// Gets the number of experiments that have been run within the
    /// [`Test`].
    pub fn total_experiments(&self) -> (r: u64)
        ensures
            r == self.spec_total_experiments(),
    {
        self.total_experiments
    }

    /// Gets the max deviance, in millionths, allowed for any bit within the
    /// [`Test`] for the [`Test`] to be considered passing.
    pub fn max_deviance(&self) -> (r: u32)
        ensures
            r == self.spec_max_deviance(),
    {
        self.max_deviance
    }

    /// Runs a single experiment: draws one sample from the provider, flips
    /// one random bit per iteration, and accumulates which output bits
    /// changed into the test's counters.
    ///
    /// Fails only when the provider hands out empty data; the error names
    /// the experiment as its source.
    pub fn run_single_experiment<H: HashCapability>(&mut self, build_hasher: &H) -> (r: Result<
        (),
        Error,
    >)
        requires
            old(self).wf(),
            old(self).spec_bytes_per_input() <= usize::MAX / 8,
            (old(self).spec_total_experiments() + 1) * old(self).spec_iterations_per_experiment()
                <= u64::MAX,
        ensures
            final(self).wf(),
            final(self).spec_iterations_per_experiment() == old(
                self,
            ).spec_iterations_per_experiment(),
            final(self).spec_max_deviance() == old(self).spec_max_deviance(),
            final(self).spec_bytes_per_input() == old(self).spec_bytes_per_input(),
            match r {
                Ok(()) => {
                    &&& old(self).spec_bytes_per_input() > 0
                    &&& final(self).spec_total_experiments() == old(self).spec_total_experiments()
                        + 1
                    &&& forall|j: int|
                        #![trigger final(self).spec_bit_flips()[j]]
                        0 <= j < 64 ==> {
                            &&& old(self).spec_bit_flips()[j] <= final(self).spec_bit_flips()[j]
                            &&& final(self).spec_bit_flips()[j] <= old(self).spec_bit_flips()[j]
                                + old(self).spec_iterations_per_experiment()
                        }
                },
                Err(e) => {
                    &&& old(self).spec_bytes_per_input() == 0
                    &&& e == Error::Experiment(experiment::Error::EmptyData)
                    &&& final(self).spec_total_experiments() == old(self).spec_total_experiments()
                    &&& final(self).spec_bit_flips() == old(self).spec_bit_flips()
                },
            },
    {
        let mut batch = self.provider.provide(1);
        let data = match batch.pop() {
            Some(d) => d,
            None => unreached(),
        };
        if data.len() == 0 {
            return Err(Error::Experiment(experiment::Error::EmptyData));
        }

        let mut exp = match Experiment::try_new(data) {
            Ok(e) => e,
            Err(_) => unreached(),
        };

        let counts = exp.run(build_hasher, self.iterations_per_experiment);

        let ghost before = self.bit_flips@;
        let mut merged: Vec<u64> = Vec::new();
        let mut j: usize = 0;
        while j < 64
            invariant
                0 <= j <= 64,
                self.bit_flips@.len() == 64,
                counts@.len() == 64,
                forall|t: int| 0 <= t < 64 ==> #[trigger] counts@[t]
                    <= self.iterations_per_experiment,
                forall|t: int| 0 <= t < 64 ==> #[trigger] self.bit_flips@[t]
                    <= self.total_experiments * self.iterations_per_experiment,
                (self.total_experiments + 1) * self.iterations_per_experiment <= u64::MAX,
                merged@.len() == j,
                forall|t: int|
                    0 <= t < j ==> #[trigger] merged@[t] == self.bit_flips@[t] + counts@[t],
            decreases 64 - j,
        {
            proof {
                assert(self.total_experiments * self.iterations_per_experiment
                    + self.iterations_per_experiment == (self.total_experiments + 1)
                    * self.iterations_per_experiment) by (nonlinear_arith);
            }
            merged.push(self.bit_flips[j] + counts[j]);
            j = j + 1;
        }

        proof {
            assert(self.total_experiments * self.iterations_per_experiment
                + self.iterations_per_experiment == (self.total_experiments + 1)
                * self.iterations_per_experiment) by (nonlinear_arith);
            assert(self.total_experiments + 1 <= u64::MAX) by (nonlinear_arith)
                requires
                    (self.total_experiments + 1) * self.iterations_per_experiment <= u64::MAX,
                    self.iterations_per_experiment >= 1,
                    self.total_experiments >= 0,
            ;
        }
        self.total_experiments = self.total_experiments + 1;
        self.bit_flips = merged;
        Ok(())
    }

    /// Generates [`Results`] from the current state of the [`Test`].
    ///
    /// For each bit position the bias is the distance of its flip fraction
    /// from one half, reported in millionths (rounded down); the test
    /// succeeds exactly when every position's bias is within the configured
    /// max deviance. At least one experiment must have run.
    pub fn results(&self) -> (r: Results)
        requires
            self.wf(),
            self.spec_total_experiments() >= 1,
        ensures
            ({
                let total = self.spec_total_experiments() * self.spec_iterations_per_experiment();
                &&& r.bit_bias_offsets@.len() == 64
                &&& forall|j: int|
                    0 <= j < 64 ==> #[trigger] r.bit_bias_offsets@[j] == (
                    j as usize,
                    bias_millionths(self.spec_bit_flips()[j] as int, total as int) as u64,
                )
                &&& r.succeeded == (forall|j: int|
                    0 <= j < 64 ==> bias_within(
                        #[trigger] self.spec_bit_flips()[j] as int,
                        total as int,
                        self.spec_max_deviance() as int,
                    ))
                &&& r.max_bias.0 < 64
                &&& r.max_bias.1 == bias_millionths(
                    self.spec_bit_flips()[r.max_bias.0 as int] as int,
                    total as int,
                )
                &&& forall|j: int|
                    0 <= j < 64 ==> bias_millionths(
                        #[trigger] self.spec_bit_flips()[j] as int,
                        total as int,
                    ) <= r.max_bias.1
                &&& forall|j: int|
                    0 <= j < r.max_bias.0 ==> bias_millionths(
                        #[trigger] self.spec_bit_flips()[j] as int,
                        total as int,
                    ) < r.max_bias.1
            }),
    {
        let total: u64 = self.total_experiments * self.iterations_per_experiment;
        proof {
            assert(total >= 1) by (nonlinear_arith)
                requires
                    total == self.spec_total_experiments()
                        * self.spec_iterations_per_experiment(),
                    self.spec_total_experiments() >= 1,
                    self.spec_iterations_per_experiment() >= 1,
            ;
        }

        let mut offsets: Vec<(usize, u64)> = Vec::new();
        let mut all_within: bool = true;
        let mut max_idx: usize = 0;
        let mut max_val: u64 = 0;
        let mut j: usize = 0;
        while j < 64
            invariant
                0 <= j <= 64,
                self.spec_bit_flips().len() == 64,
                1 <= total,
                total == self.spec_total_experiments() * self.spec_iterations_per_experiment(),
                forall|t: int| 0 <= t < 64 ==> #[trigger] self.spec_bit_flips()[t] <= total,
                self.spec_max_deviance() <= 1_000_000,
                offsets@.len() == j,
                forall|t: int|
                    0 <= t < j ==> #[trigger] offsets@[t] == (
                    t as usize,
                    bias_millionths(self.spec_bit_flips()[t] as int, total as int) as u64,
                ),
                all_within == (forall|t: int|
                    0 <= t < j ==> bias_within(
                        #[trigger] self.spec_bit_flips()[t] as int,
                        total as int,
                        self.spec_max_deviance() as int,
                    )),
                j > 0 ==> max_idx < j,
                max_val == if j == 0 {
                    0int
                } else {
                    bias_millionths(self.spec_bit_flips()[max_idx as int] as int, total as int)
                },
                forall|t: int|
                    0 <= t < j ==> bias_millionths(self.spec_bit_flips()[t] as int, total as int)
                        <= max_val,
                forall|t: int|
                    0 <= t < max_idx ==> bias_millionths(
                        self.spec_bit_flips()[t] as int,
                        total as int,
                    ) < max_val,
            decreases 64 - j,
        {
            let flips: u64 = self.bit_flips[j];
            let twice: u128 = 2 * (flips as u128);
            let tw: u128 = total as u128;
            let diff: u128 = if twice >= tw {
                twice - tw
            } else {
                tw - twice
            };
            let scaled: u128 = diff * 1_000_000;
            let bias: u128 = scaled / (2 * tw);
            proof {
                assert(diff <= tw) by (nonlinear_arith)
                    requires
                        twice == 2 * (flips as int),
                        diff == abs_diff_twice(flips as int, tw as int),
                        0 <= flips <= tw,
                ;
                assert(bias <= 1_000_000) by (nonlinear_arith)
                    requires
                        bias == (diff * 1_000_000) as int / (2 * tw) as int,
                        0 <= diff <= tw,
                        tw >= 1,
                ;
            }
            let bias64: u64 = bias as u64;

            let lhs: u128 = 1_000_000 * diff;
            proof {
                assert((2 * tw) * (self.spec_max_deviance() as int) <= (2 * 0xffff_ffff_ffff_ffff)
                    * 1_000_000) by (nonlinear_arith)
                    requires
                        0 <= tw <= 0xffff_ffff_ffff_ffff,
                        0 <= self.spec_max_deviance() <= 1_000_000,
                ;
            }
            let rhs: u128 = 2 * tw * (self.max_deviance as u128);
            let within: bool = lhs <= rhs;

            offsets.push((j, bias64));
            all_within = all_within && within;
            if j == 0 || bias64 > max_val {
                max_idx = j;
                max_val = bias64;
            }
            j = j + 1;
        }

        Results { succeeded: all_within, max_bias: (max_idx, max_val), bit_bias_offsets: offsets }
    }
}

/// Populates the boilerplate report information for a strict avalanche
/// criterion test section: its title and its description, with the modules
/// left for the caller to push.
pub fn get_report_base() -> (r: Builder)
    ensures
        r.title is Some,
        r.description is Some,
        r.modules@.len() == 0,
{
    let builder = Builder::new();
    let builder = match builder.title("Strict Avalanche Criterion".to_owned()) {
        Ok(b) => b,
        Err(_) => unreached(),
    };
    let description =
        "The strict avalanche criterion (SAC) determines whether a hash function exhibits strong avalanching effects: when a single input bit is flipped, each of the 64 output bits should flip half of the time, with no bias toward any position. For every experiment, a fresh input is drawn from the data provider; each iteration then hashes the input, flips one uniformly random input bit, hashes again, and tallies which output bits changed. The report shows the per-bit flip fractions and fails the test when any bit's bias from one half exceeds the configured tolerance.".to_owned();
    let builder = match builder.description(description) {
        Ok(b) => b,
        Err(_) => unreached(),
    };
    builder
}

} // verus!
