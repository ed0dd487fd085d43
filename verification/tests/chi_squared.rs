//! Tests for the chi-squared goodness-of-fit analysis: bucket
//! conservation, verdict mapping, and the suite plumbing.

use bitbelay::analyses::chi_squared::goodness_of_fit;
use bitbelay::hash::HashCapability;
use bitbelay::providers::ascii::AlphanumericProvider;
use bitbelay::report::section::test::module::Verdict;
use bitbelay::suites::chi_squared::suite::Builder;
use statrs::distribution::ChiSquared;
use statrs::distribution::ContinuousCDF;

struct StrongHasher(ahash::RandomState);

impl HashCapability for StrongHasher {
    fn hash_one(&self, data: &[u8]) -> u64 {
        std::hash::BuildHasher::hash_one(&self.0, data)
    }
}

#[test]
fn buckets_conserve_iterations() {
    let hasher = StrongHasher(ahash::RandomState::new());
    let provider = AlphanumericProvider::new(10);
    let mut test = goodness_of_fit::Test::new(provider, 16, 50_000).unwrap();

    assert_eq!(test.buckets().iter().sum::<u64>(), 0);
    for k in 1..=257u64 {
        test.single_iteration(&hasher);
        assert_eq!(test.buckets().iter().sum::<u64>(), k);
    }
    assert_eq!(test.buckets().len(), 16);
}

#[test]
fn statistic_needs_sample_density() {
    let hasher = StrongHasher(ahash::RandomState::new());
    let provider = AlphanumericProvider::new(10);
    let mut test = goodness_of_fit::Test::new(provider, 16, 50_000).unwrap();

    for _ in 0..10 {
        test.single_iteration(&hasher);
    }
    // Ten samples over sixteen buckets: expected density below five.
    assert!(test.statistic().is_none());

    for _ in 0..2048 {
        test.single_iteration(&hasher);
    }
    assert!(test.statistic().is_some());
}

#[test]
fn verdict_maps_p_value_to_outcome() {
    let provider = AlphanumericProvider::new(10);
    let test = goodness_of_fit::Test::new(provider, 16, 50_000).unwrap();

    assert_eq!(test.verdict(None), Verdict::Inconclusive);
    assert_eq!(test.verdict(Some(50_001)), Verdict::Pass);
    assert_eq!(test.verdict(Some(50_000)), Verdict::Fail);
    assert_eq!(test.verdict(Some(0)), Verdict::Fail);
}

#[test]
fn goodness_of_fit_invalid_configuration_is_refused() {
    let provider = AlphanumericProvider::new(10);
    let result = goodness_of_fit::Test::new(provider, 0, 50_000);
    assert_eq!(result.unwrap_err(), goodness_of_fit::Error::InvalidBuckets);

    let provider = AlphanumericProvider::new(10);
    let result = goodness_of_fit::Test::new(provider, 16, 1_000_001);
    assert_eq!(
        result.unwrap_err(),
        goodness_of_fit::Error::InvalidThreshold(1_000_001)
    );
}

#[test]
fn strong_hash_passes_goodness_of_fit() {
    let hasher = StrongHasher(ahash::RandomState::new());
    let mut suite = Builder::default()
        .build_hasher(&hasher)
        .unwrap()
        .buckets(64)
        .unwrap()
        .try_build()
        .unwrap();
    assert_eq!(suite.buckets(), 64);

    suite
        .run_goodness_of_fit(AlphanumericProvider::new(10), 4096, 50_000)
        .unwrap();

    assert_eq!(suite.tests().len(), 1);
    let test = suite.tests()[0].as_goodness_of_fit_test().unwrap();
    assert_eq!(test.buckets().iter().sum::<u64>(), 4096);

    let statistic = test.statistic().unwrap();
    let value = statistic.num as f64 / statistic.den as f64;
    let p = 1.0 - ChiSquared::new(63.0).unwrap().cdf(value);
    let p_millionths = (p * 1_000_000.0) as u64;
    // A real hash spreads digests uniformly, so uniformity is not
    // rejected.
    assert_eq!(test.verdict(Some(p_millionths)), Verdict::Pass);
}

#[test]
fn default_bucket_count_is_256() {
    let hasher = StrongHasher(ahash::RandomState::new());
    let suite = Builder::default().build_hasher(&hasher).unwrap().try_build::<
        AlphanumericProvider,
    >().unwrap();
    assert_eq!(suite.buckets(), 256);
}
