//! A statistical quality harness for 64-bit hash functions.
//!
//! The library evaluates a hash function with four independent analyses:
//! bit-avalanche behaviour, output-bucket uniformity, inter-bit correlation,
//! and throughput. Every quantity is carried as exact integer or rational
//! arithmetic; fractional results are exposed in millionths (parts per
//! million), so that all verdicts are computed exactly.

pub mod analyses;
pub mod clock;
pub mod hash;
pub mod math;
pub mod providers;
pub mod random;
pub mod report;
pub mod statistics;
pub mod suites;
