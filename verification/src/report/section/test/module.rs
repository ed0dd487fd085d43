//! Modules within a test section.

use vstd::prelude::*;

verus! {

/// The outcome of a module.
#[derive(Clone, Copy, Debug, PartialEq, Eq, Structural)]
pub enum Verdict {
    /// A passed module.
    Pass,
    /// An inconclusive module: the analysis had no result, which is
    /// distinct from failing.
    Inconclusive,
    /// A failed module.
    Fail,
}

/// A module within a test section: the smallest structured unit that can
/// pass, fail, or come out inconclusive.
#[derive(Clone, Debug, PartialEq, Eq)]
pub struct Module {
    /// The result.
    pub result: Verdict,
    /// The name.
    pub name: String,
    /// An optional short value.
    pub value: Option<String>,
    /// Optional long-form details regarding the output.
    pub details: Option<String>,
}

impl Module {
    /// Creates a new [`Module`].
    pub fn new(
        result: Verdict,
        name: String,
        value: Option<String>,
        details: Option<String>,
    ) -> (r: Module)
        ensures
            r.result == result,
            r.name == name,
            r.value == value,
            r.details == details,
    {
        Module { result, name, value, details }
    }

    /// Gets the result from a [`Module`].
    pub fn result(&self) -> (r: &Verdict)
        ensures
            r == &self.result,
    {
        &self.result
    }

    /// Gets the name from a [`Module`].
    pub fn name(&self) -> (r: &String)
        ensures
            r == &self.name,
    {
        &self.name
    }

    /// Gets the value from a [`Module`] (if it exists).
    pub fn value(&self) -> (r: &Option<String>)
        ensures
            r == &self.value,
    {
        &self.value
    }

    /// Gets the details from a [`Module`] (if they exist).
    pub fn details(&self) -> (r: &Option<String>)
        ensures
            r == &self.details,
    {
        &self.details
    }
}

} // verus!
