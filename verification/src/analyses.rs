//! The per-analysis test state machines.
//!
//! Each analysis owns its accumulator state, exposes an operation that
//! advances it by one unit of work, and reduces the accumulated samples to a
//! verdict on demand.

pub mod avalanche;
pub mod chi_squared;
pub mod correlation;
pub mod performance;
