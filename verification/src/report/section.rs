//! Sections within a report.

use vstd::prelude::*;

pub mod test;

pub use test::Test;

verus! {

/// A section within a report.
#[derive(Debug)]
pub enum Section {
    /// A test result section.
    TestResult(Test),
}

impl Section {
    /// Returns a reference to the inner test result if the section is a
    /// [`Section::TestResult`].
    pub fn as_test_result(&self) -> (r: Option<&Test>)
        ensures
            match self {
                Section::TestResult(t) => r == Some(t),
            },
    {
        match self {
            Section::TestResult(result) => Some(result),
        }
    }
}

} // verus!
