//! A section describing one conducted test.

use vstd::prelude::*;

pub mod builder;
pub mod module;

pub use builder::Builder;
pub use module::Module;

verus! {

/// A section of a report describing a test that was conducted: a title, a
/// description, and a non-empty ordered list of modules.
#[derive(Clone, Debug, PartialEq, Eq)]
pub struct Test {
    /// The test title.
    pub title: String,
    /// The test description.
    pub description: String,
    /// The modules of the test.
    pub modules: Vec<Module>,
}

impl Test {
    /// A test section carries at least one module.
    pub open spec fn wf(&self) -> bool {
        self.modules.len() >= 1
    }

    /// Gets the title from the [`Test`].
    pub fn title(&self) -> (r: &String)
        ensures
            r == &self.title,
    {
        &self.title
    }

    /// Gets the description from the [`Test`].
    pub fn description(&self) -> (r: &String)
        ensures
            r == &self.description,
    {
        &self.description
    }

    /// Gets the [`Module`]s from the [`Test`].
    pub fn modules(&self) -> (r: &Vec<Module>)
        ensures
            r == &self.modules,
    {
        &self.modules
    }
}

} // verus!
