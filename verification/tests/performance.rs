//! Tests for the speed analysis: payload rebuilding, throughput
//! computation, and the summary statistics with their verdicts.

use bitbelay::analyses::performance::speed;
use bitbelay::analyses::performance::speed::compute_throughput;
use bitbelay::hash::HashCapability;
use bitbelay::providers::ascii::AlphanumericProvider;
use bitbelay::suites::performance::suite::Builder;

struct StrongHasher(ahash::RandomState);

impl HashCapability for StrongHasher {
    fn hash_one(&self, data: &[u8]) -> u64 {
        std::hash::BuildHasher::hash_one(&self.0, data)
    }
}

#[test]
fn throughput_is_exact() {
    // 1000 bytes in 1000 nanoseconds is a gigabyte per second.
    assert_eq!(compute_throughput(1000, 1000), 1_000_000_000);
    // A zero reading counts as one nanosecond.
    assert_eq!(compute_throughput(1, 0), 1_000_000_000);
    // Values beyond the cap saturate.
    assert_eq!(compute_throughput(1_000_000_000, 0), 1_000_000_000_000);
    // Slow results round down.
    assert_eq!(compute_throughput(3, 2_000_000_000), 1);
}

#[test]
fn run_rebuilds_payload_and_records_samples() {
    let hasher = StrongHasher(ahash::RandomState::new());
    let provider = AlphanumericProvider::new(10);
    let mut test = speed::Test::new(provider, 15_000, 0).unwrap();

    assert_eq!(test.data().len(), 0);
    assert_eq!(test.desired_data_size(), 15_000);

    test.run(&hasher, 5);
    assert_eq!(test.results().len(), 5);
    // The payload reaches the desired size, overshooting by less than one
    // provider unit.
    assert!(test.data().len() >= 15_000);
    assert!(test.data().len() < 15_010);
}

#[test]
fn summary_reduces_samples_exactly() {
    let hasher = StrongHasher(ahash::RandomState::new());
    let provider = AlphanumericProvider::new(100);
    let mut test = speed::Test::new(provider, 10_000, 0).unwrap();
    test.run(&hasher, 9);

    let summary = test.summary();
    let samples = test.results();
    let total: u128 = samples.iter().map(|s| *s as u128).sum();
    assert_eq!(summary.mean.num as u128, total);
    assert_eq!(summary.mean.den, 9);

    let mut sorted = samples.clone();
    sorted.sort();
    assert_eq!(summary.median.num, 2 * (sorted[4] as i128));
    assert_eq!(summary.median.den, 2);

    // With a threshold of zero, both modules pass.
    assert!(summary.mean_passed);
    assert!(summary.median_passed);
}

#[test]
fn unreachable_threshold_fails_both_modules() {
    let hasher = StrongHasher(ahash::RandomState::new());
    let provider = AlphanumericProvider::new(100);
    // The threshold exceeds the cap that no sample can pass.
    let mut test = speed::Test::new(provider, 10_000, 1_000_000_000_001).unwrap();
    test.run(&hasher, 5);

    let summary = test.summary();
    assert!(!summary.mean_passed);
    assert!(!summary.median_passed);
}

#[test]
fn zero_payload_size_is_refused() {
    let provider = AlphanumericProvider::new(10);
    assert_eq!(
        speed::Test::new(provider, 0, 0).unwrap_err(),
        speed::Error::InvalidDataSize
    );
}

#[test]
fn suite_runs_speed_test() {
    let hasher = StrongHasher(ahash::RandomState::new());
    let mut suite = Builder::default().build_hasher(&hasher).unwrap().try_build().unwrap();

    suite
        .run_speed_test(AlphanumericProvider::new(100), 5, 10_000, 0)
        .unwrap();

    assert_eq!(suite.tests().len(), 1);
    let test = suite.tests()[0].as_speed_test().unwrap();
    assert_eq!(test.results().len(), 5);
    assert_eq!(test.threshold(), 0);
}
