//! Tests for the strict avalanche criterion analysis: the single-bit flip
//! invariant, the accumulator accounting, and end-to-end verdicts with a
//! strong hash and a degenerate one.

use bitbelay::analyses::avalanche::sac;
use bitbelay::analyses::avalanche::sac::Experiment;
use bitbelay::hash::HashCapability;
use bitbelay::providers::ascii::AlphanumericProvider;
use bitbelay::suites::avalanche::suite::Builder;

/// A real 64-bit hash behind the library's capability trait.
struct StrongHasher(ahash::RandomState);

impl HashCapability for StrongHasher {
    fn hash_one(&self, data: &[u8]) -> u64 {
        std::hash::BuildHasher::hash_one(&self.0, data)
    }
}

/// A degenerate hash whose digest is always 42, so no output bit ever
/// flips.
struct ConstantHasher;

impl HashCapability for ConstantHasher {
    fn hash_one(&self, _data: &[u8]) -> u64 {
        42
    }
}

/// The Hamming weight of a byte sequence.
fn count_ones(data: &Vec<u8>) -> i64 {
    let mut total: i64 = 0;
    for byte in data {
        total += byte.count_ones() as i64;
    }
    total
}

#[test]
fn flipping_random_bits() {
    let mut experiment = Experiment::try_new(b"Hello, world!".to_vec()).unwrap();

    let mut old_number_of_ones = count_ones(experiment.data());

    for _ in 0..10000 {
        experiment.flip_random_bit();
        let new_number_of_ones = count_ones(experiment.data());
        assert_eq!((new_number_of_ones - old_number_of_ones).abs(), 1);
        old_number_of_ones = new_number_of_ones;
    }
}

#[test]
fn empty_data_is_refused() {
    assert_eq!(
        Experiment::try_new(Vec::new()).unwrap_err(),
        sac::experiment::Error::EmptyData
    );
}

#[test]
fn sac_invalid_configuration_is_refused() {
    let provider = AlphanumericProvider::new(10);
    let result = sac::Test::try_new(provider, 1000, 1_000_001);
    assert_eq!(result.unwrap_err(), sac::Error::InvalidMaxDeviance(1_000_001));

    let provider = AlphanumericProvider::new(10);
    let result = sac::Test::try_new(provider, 0, 10_000);
    assert_eq!(result.unwrap_err(), sac::Error::InvalidIterations);
}

#[test]
fn accumulators_start_empty_and_count_experiments() {
    let hasher = StrongHasher(ahash::RandomState::new());
    let provider = AlphanumericProvider::new(10);
    let mut test = sac::Test::try_new(provider, 1000, 10_000).unwrap();

    assert_eq!(test.bit_flips().iter().sum::<u64>(), 0);
    assert_eq!(test.total_experiments(), 0);
    assert_eq!(test.iterations_per_experiment(), 1000);
    assert_eq!(test.max_deviance(), 10_000);

    test.run_single_experiment(&hasher).unwrap();
    assert_eq!(test.total_experiments(), 1);
}

#[test]
fn results_are_idempotent() {
    let hasher = StrongHasher(ahash::RandomState::new());
    let provider = AlphanumericProvider::new(10);
    let mut test = sac::Test::try_new(provider, 500, 10_000).unwrap();
    for _ in 0..3 {
        test.run_single_experiment(&hasher).unwrap();
    }

    let first = test.results();
    let second = test.results();
    assert_eq!(first, second);
}

#[test]
fn strong_hash_passes_end_to_end() {
    let hasher = StrongHasher(ahash::RandomState::new());
    let mut suite = Builder::default().build_hasher(&hasher).unwrap().try_build().unwrap();

    suite
        .run_strict_avalanche_criterion_test(AlphanumericProvider::new(10), 10, 5_000, 10_000)
        .unwrap();

    assert_eq!(suite.tests().len(), 1);
    let test = suite.tests()[0].as_strict_avalanche_criterion_test().unwrap();
    let results = test.results();

    // Every bit's flip fraction is within 0.01 of one half.
    assert!(results.succeeded);
    assert!(results.max_bias.1 <= 10_000);
    assert_eq!(results.bit_bias_offsets.len(), 64);
}

#[test]
fn constant_hash_fails_end_to_end() {
    let hasher = ConstantHasher;
    let mut suite = Builder::default().build_hasher(&hasher).unwrap().try_build().unwrap();

    suite
        .run_strict_avalanche_criterion_test(AlphanumericProvider::new(10), 10, 5_000, 10_000)
        .unwrap();

    let test = suite.tests()[0].as_strict_avalanche_criterion_test().unwrap();
    let results = test.results();

    // No output bit ever flips, so every bias is the full one half.
    assert!(!results.succeeded);
    assert_eq!(results.max_bias.1, 500_000);
    for (_, bias) in results.bit_bias_offsets.iter() {
        assert_eq!(*bias, 500_000);
    }
}

#[test]
fn empty_provider_fails_the_experiment() {
    let hasher = ConstantHasher;
    let mut suite = Builder::default().build_hasher(&hasher).unwrap().try_build().unwrap();

    // A provider of zero-length sequences gives the experiment nothing to
    // flip.
    let result =
        suite.run_strict_avalanche_criterion_test(AlphanumericProvider::new(0), 1, 10, 10_000);
    assert_eq!(
        result.unwrap_err(),
        bitbelay::suites::avalanche::Error::StrictAvalancheCriterion(sac::Error::Experiment(
            sac::experiment::Error::EmptyData
        ))
    );
    assert_eq!(suite.tests().len(), 0);
}
