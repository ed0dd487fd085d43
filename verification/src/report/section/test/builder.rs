//! A builder for a test section.

use vstd::prelude::*;

use crate::report::section::Test;
use crate::report::section::test::Module;

verus! {

/// An error when a required field is missing.
#[derive(Clone, Copy, Debug, PartialEq, Eq, Structural)]
pub enum MissingError {
    /// No title was provided to the [`Builder`].
    Title,
    /// No description was provided to the [`Builder`].
    Description,
    /// No modules were provided to the [`Builder`].
    Modules,
}

/// An error when multiple values are provided for a singular field.
#[derive(Clone, Copy, Debug, PartialEq, Eq, Structural)]
pub enum MultipleError {
    /// Multiple titles were provided to the [`Builder`].
    Title,
    /// Multiple descriptions were provided to the [`Builder`].
    Description,
}

/// An error related to a [`Builder`].
#[derive(Clone, Copy, Debug, PartialEq, Eq, Structural)]
pub enum Error {
    /// A required field was missing from the [`Builder`].
    Missing(MissingError),
    /// Multiple values were provided for a singular field in the [`Builder`].
    Multiple(MultipleError),
}

/// A builder for a [`Test`] section: the title and description are required
/// single-valued fields, and at least one module must be pushed.
#[derive(Debug)]
pub struct Builder {
    /// The title.
    pub title: Option<String>,
    /// The description.
    pub description: Option<String>,
    /// The modules of the test.
    pub modules: Vec<Module>,
}

impl Builder {
    /// Creates an empty [`Builder`].
    pub fn new() -> (r: Builder)
        ensures
            r.title is None,
            r.description is None,
            r.modules.len() == 0,
    {
        Builder { title: None, description: None, modules: Vec::new() }
    }

    /// Sets the title for the [`Builder`]; setting it twice is an error.
    pub fn title(self, title: String) -> (r: Result<Builder, Error>)
        ensures
            match r {
                Ok(b) => self.title is None && b.title == Some(title) && b.description
                    == self.description && b.modules == self.modules,
                Err(e) => self.title is Some && e == Error::Multiple(MultipleError::Title),
            },
    {
        if self.title.is_some() {
            return Err(Error::Multiple(MultipleError::Title));
        }
        Ok(Builder { title: Some(title), ..self })
    }

    /// Sets the description for the [`Builder`]; setting it twice is an
    /// error.
    pub fn description(self, description: String) -> (r: Result<Builder, Error>)
        ensures
            match r {
                Ok(b) => self.description is None && b.description == Some(description) && b.title
                    == self.title && b.modules == self.modules,
                Err(e) => self.description is Some && e == Error::Multiple(
                    MultipleError::Description,
                ),
            },
    {
        if self.description.is_some() {
            return Err(Error::Multiple(MultipleError::Description));
        }
        Ok(Builder { description: Some(description), ..self })
    }

    /// Pushes a [`Module`] into the [`Builder`]; modules accumulate.
    pub fn push_module(self, module: Module) -> (r: Builder)
        ensures
            r.modules@ == self.modules@.push(module),
            r.title == self.title,
            r.description == self.description,
    {
        let mut modules = self.modules;
        modules.push(module);
        Builder { modules, ..self }
    }

    /// Consumes the [`Builder`] and attempts to build a [`Test`] section.
    ///
    /// Fails, naming the field, when the title or the description was never
    /// set or when no module was pushed.
    pub fn try_build(self) -> (r: Result<Test, Error>)
        ensures
            match r {
                Ok(t) => t.wf() && self.title == Some(t.title) && self.description == Some(
                    t.description,
                ) && t.modules == self.modules,
                Err(e) => {
                    &&& (self.title is None || self.description is None || self.modules.len()
                        == 0)
                    &&& e == if self.title is None {
                        Error::Missing(MissingError::Title)
                    } else if self.description is None {
                        Error::Missing(MissingError::Description)
                    } else {
                        Error::Missing(MissingError::Modules)
                    }
                },
            },
    {
        let title = match self.title {
            Some(t) => t,
            None => {
                return Err(Error::Missing(MissingError::Title));
            },
        };
        let description = match self.description {
            Some(d) => d,
            None => {
                return Err(Error::Missing(MissingError::Description));
            },
        };
        if self.modules.len() == 0 {
            return Err(Error::Missing(MissingError::Modules));
        }
        Ok(Test { title, description, modules: self.modules })
    }
}

impl Default for Builder {
    /// An empty builder.
    fn default() -> (r: Builder)
        ensures
            r.title is None,
            r.description is None,
            r.modules.len() == 0,
    {
        Builder { title: None, description: None, modules: Vec::new() }
    }
}

} // verus!
