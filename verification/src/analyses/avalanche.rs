//! Avalanche tests.

use vstd::prelude::*;

pub mod sac;

use crate::providers::Provider;

verus! {

/// A type of avalanche test.
pub enum Test<P: Provider> {
    /// A strict avalanche criterion test.
    StrictAvalancheCriterion(sac::Test<P>),
}

impl<P: Provider> Test<P> {
    /// Gets a reference to the inner [`sac::Test`] if this [`Test`] is a
    /// [`Test::StrictAvalancheCriterion`].
    pub fn as_strict_avalanche_criterion_test(&self) -> (r: Option<&sac::Test<P>>)
        ensures
            match self {
                Test::StrictAvalancheCriterion(t) => r == Some(t),
            },
    {
        match self {
            Test::StrictAvalancheCriterion(test) => Some(test),
        }
    }

    /// Consumes this [`Test`] and returns the inner [`sac::Test`] if it is
    /// a [`Test::StrictAvalancheCriterion`].
    pub fn into_strict_avalanche_criterion_test(self) -> (r: Option<sac::Test<P>>)
        ensures
            match self {
                Test::StrictAvalancheCriterion(t) => r == Some(t),
            },
    {
        match self {
            Test::StrictAvalancheCriterion(test) => Some(test),
        }
    }
}

} // verus!
