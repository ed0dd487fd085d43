//! Test suites: each owns a shared reference to the hash capability under
//! evaluation, runs any number of tests of its kind, and keeps the
//! completed tests in invocation order.

pub mod avalanche;
pub mod chi_squared;
pub mod correlation;
pub mod performance;
