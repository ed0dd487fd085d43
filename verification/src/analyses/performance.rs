//! Performance tests.

use vstd::prelude::*;

pub mod speed;

use crate::providers::Provider;

verus! {

/// A type of performance test.
pub enum Test<P: Provider> {
    /// A speed test.
    Speed(speed::Test<P>),
}

impl<P: Provider> Test<P> {
    /// Gets a reference to the inner [`speed::Test`] if this [`Test`] is a
    /// [`Test::Speed`].
    pub fn as_speed_test(&self) -> (r: Option<&speed::Test<P>>)
        ensures
            match self {
                Test::Speed(t) => r == Some(t),
            },
    {
        match self {
            Test::Speed(test) => Some(test),
        }
    }

    /// Consumes this [`Test`] and returns the inner [`speed::Test`] if it
    /// is a [`Test::Speed`].
    pub fn into_speed_test(self) -> (r: Option<speed::Test<P>>)
        ensures
            match self {
                Test::Speed(t) => r == Some(t),
            },
    {
        match self {
            Test::Speed(test) => Some(test),
        }
    }
}

} // verus!
