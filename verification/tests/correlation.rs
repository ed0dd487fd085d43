//! Tests for the bitwise correlation analysis: bit extraction, the
//! diagonal self-check, and verdicts.

use bitbelay::analyses::correlation::bitwise;
use bitbelay::analyses::correlation::bitwise::extract_bit_values_from_hashes;
use bitbelay::hash::HashCapability;
use bitbelay::providers::ascii::AlphanumericProvider;
use bitbelay::report::section::test::module::Verdict;
use bitbelay::suites::correlation::suite::Builder;

struct StrongHasher(ahash::RandomState);

impl HashCapability for StrongHasher {
    fn hash_one(&self, data: &[u8]) -> u64 {
        std::hash::BuildHasher::hash_one(&self.0, data)
    }
}

/// A degenerate hash whose digest is always 42, which gives every bit
/// position a constant (zero-variance) sample vector.
struct ConstantHasher;

impl HashCapability for ConstantHasher {
    fn hash_one(&self, _data: &[u8]) -> u64 {
        42
    }
}

#[test]
fn it_extracts_bit_values_from_hashes_correctly() {
    let hashes: Vec<u64> = vec![0x00, 0x01, 0x02, 0x03];
    let bit_values = extract_bit_values_from_hashes(&hashes);

    for i in 2..64 {
        assert_eq!(bit_values[i], vec![0, 0, 0, 0]);
    }

    assert_eq!(bit_values[1], vec![0, 0, 1, 1]);
    assert_eq!(bit_values[0], vec![0, 1, 0, 1]);
}

#[test]
fn runs_concatenate_samples() {
    let hasher = StrongHasher(ahash::RandomState::new());
    let mut alphas = AlphanumericProvider::new(10);
    let mut more_alphas = AlphanumericProvider::new(12);
    let mut test = bitwise::Test::new(50_000).unwrap();

    test.run(&hasher, &mut alphas, 10);
    test.run(&hasher, &mut more_alphas, 10);

    assert_eq!(test.bit_values()[0].len(), 20);
    assert_eq!(test.threshold(), 50_000);
}

#[test]
fn diagonal_reads_exactly_one() {
    let hasher = StrongHasher(ahash::RandomState::new());
    let mut provider = AlphanumericProvider::new(10);
    let mut test = bitwise::Test::new(50_000).unwrap();
    test.run(&hasher, &mut provider, 512);

    let matrix = test.results().unwrap();
    let mut defined = 0;
    for i in 0..64 {
        if let Some(c) = &matrix[i][i] {
            assert_eq!(c.num, c.var_a);
            assert_eq!(c.num, c.var_b);
            assert_eq!(c.millionths(), 1_000_000);
            defined += 1;
        }
    }
    // With 512 random digests, essentially every bit position varies.
    assert!(defined >= 32);
}

#[test]
fn no_samples_means_no_results() {
    let test = bitwise::Test::new(50_000).unwrap();
    assert!(test.results().is_none());
    assert_eq!(test.verdict(), Verdict::Inconclusive);
}

#[test]
fn constant_hash_is_inconclusive() {
    let hasher = ConstantHasher;
    let mut provider = AlphanumericProvider::new(10);
    let mut test = bitwise::Test::new(50_000).unwrap();
    test.run(&hasher, &mut provider, 64);

    // Zero-variance sample vectors leave the coefficients undefined.
    let matrix = test.results().unwrap();
    assert!(matrix[0][0].is_none());
    assert_eq!(test.verdict(), Verdict::Inconclusive);
}

#[test]
fn invalid_threshold_is_refused() {
    assert_eq!(
        bitwise::Test::new(1_000_001).unwrap_err(),
        bitwise::Error::InvalidThreshold(1_000_001)
    );
}

#[test]
fn suite_runs_bitwise_test() {
    let hasher = StrongHasher(ahash::RandomState::new());
    let mut suite = Builder::default().build_hasher(&hasher).unwrap().try_build().unwrap();

    let mut provider = AlphanumericProvider::new(10);
    suite.run_bitwise_test(&mut provider, 256, 900_000).unwrap();

    assert_eq!(suite.tests().len(), 1);
    let test = suite.tests()[0].as_bitwise_test().unwrap();
    assert_eq!(test.bit_values()[0].len(), 256);
    // A strong hash keeps distinct bit positions far below a 0.9
    // correlation threshold.
    assert_eq!(test.verdict(), Verdict::Pass);
}
