//! Chi-squared tests.

use vstd::prelude::*;

pub mod goodness_of_fit;

use crate::providers::Provider;

verus! {

/// A type of chi-squared test.
pub enum Test<P: Provider> {
    /// A goodness-of-fit test.
    GoodnessOfFit(goodness_of_fit::Test<P>),
}

impl<P: Provider> Test<P> {
    /// Gets a reference to the inner [`goodness_of_fit::Test`] if this
    /// [`Test`] is a [`Test::GoodnessOfFit`].
    pub fn as_goodness_of_fit_test(&self) -> (r: Option<&goodness_of_fit::Test<P>>)
        ensures
            match self {
                Test::GoodnessOfFit(t) => r == Some(t),
            },
    {
        match self {
            Test::GoodnessOfFit(test) => Some(test),
        }
    }

    /// Consumes this [`Test`] and returns the inner
    /// [`goodness_of_fit::Test`] if it is a [`Test::GoodnessOfFit`].
    pub fn into_goodness_of_fit_test(self) -> (r: Option<goodness_of_fit::Test<P>>)
        ensures
            match self {
                Test::GoodnessOfFit(t) => r == Some(t),
            },
    {
        match self {
            Test::GoodnessOfFit(test) => Some(test),
        }
    }
}

} // verus!
