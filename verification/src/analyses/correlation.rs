//! Correlation tests.

use vstd::prelude::*;

pub mod bitwise;

verus! {

/// A type of correlation test.
pub enum Test {
    /// A bitwise correlation test.
    Bitwise(bitwise::Test),
}

impl Test {
    /// Gets a reference to the inner [`bitwise::Test`] if this [`Test`] is
    /// a [`Test::Bitwise`].
    pub fn as_bitwise_test(&self) -> (r: Option<&bitwise::Test>)
        ensures
            match self {
                Test::Bitwise(t) => r == Some(t),
            },
    {
        match self {
            Test::Bitwise(test) => Some(test),
        }
    }

    /// Consumes this [`Test`] and returns the inner [`bitwise::Test`] if it
    /// is a [`Test::Bitwise`].
    pub fn into_bitwise_test(self) -> (r: Option<bitwise::Test>)
        ensures
            match self {
                Test::Bitwise(t) => r == Some(t),
            },
    {
        match self {
            Test::Bitwise(test) => Some(test),
        }
    }
}

} // verus!
