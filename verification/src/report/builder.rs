//! A builder for a report.

use vstd::prelude::*;

use crate::clock;
use crate::report::Report;
use crate::report::section::Section;
use crate::report::section::Test;

verus! {

/// An error when a required field is missing.
#[derive(Clone, Copy, Debug, PartialEq, Eq, Structural)]
pub enum MissingError {
    /// No title was provided to the [`Builder`].
    Title,
    /// No sections were provided to the [`Builder`].
    Sections,
}

/// An error when multiple values are provided for a singular field.
#[derive(Clone, Copy, Debug, PartialEq, Eq, Structural)]
pub enum MultipleError {
    /// Multiple titles were provided to the [`Builder`].
    Title,
}

/// An error related to a [`Builder`].
#[derive(Clone, Copy, Debug, PartialEq, Eq, Structural)]
pub enum Error {
    /// A required field was missing from the [`Builder`].
    Missing(MissingError),
    /// Multiple values were provided for a singular field in the [`Builder`].
    Multiple(MultipleError),
}

/// A builder for a [`Report`]: the title is a required single-valued field,
/// and at least one test result section must be pushed.
#[derive(Debug)]
pub struct Builder {
    /// The title.
    pub title: Option<String>,
    /// The sections.
    pub sections: Vec<Section>,
}

impl Builder {
    /// Creates an empty [`Builder`].
    pub fn new() -> (r: Builder)
        ensures
            r.title is None,
            r.sections.len() == 0,
    {
        Builder { title: None, sections: Vec::new() }
    }

    /// Sets the title for the [`Builder`]; setting it twice is an error.
    pub fn title(self, title: String) -> (r: Result<Builder, Error>)
        ensures
            match r {
                Ok(b) => self.title is None && b.title == Some(title) && b.sections
                    == self.sections,
                Err(e) => self.title is Some && e == Error::Multiple(MultipleError::Title),
            },
    {
        if self.title.is_some() {
            return Err(Error::Multiple(MultipleError::Title));
        }
        Ok(Builder { title: Some(title), ..self })
    }

    /// Pushes a test result [`Section`] into the [`Builder`]; sections
    /// accumulate.
    pub fn push_test_result(self, result: Test) -> (r: Builder)
        ensures
            r.sections@ == self.sections@.push(Section::TestResult(result)),
            r.title == self.title,
    {
        let mut sections = self.sections;
        sections.push(Section::TestResult(result));
        Builder { sections, ..self }
    }

    /// Consumes the [`Builder`] and attempts to build a [`Report`], stamped
    /// with the current local date.
    ///
    /// Fails, naming the field, when the title was never set or when no
    /// section was pushed.
    pub fn try_build(self) -> (r: Result<Report, Error>)
        ensures
            match r {
                Ok(report) => report.wf() && self.title == Some(report.title) && report.sections
                    == self.sections,
                Err(e) => {
                    &&& (self.title is None || self.sections.len() == 0)
                    &&& e == if self.title is None {
                        Error::Missing(MissingError::Title)
                    } else {
                        Error::Missing(MissingError::Sections)
                    }
                },
            },
    {
        let title = match self.title {
            Some(t) => t,
            None => {
                return Err(Error::Missing(MissingError::Title));
            },
        };
        if self.sections.len() == 0 {
            return Err(Error::Missing(MissingError::Sections));
        }
        let date = clock::today();
        Ok(Report { title, date, sections: self.sections })
    }
}

impl Default for Builder {
    /// An empty builder.
    fn default() -> (r: Builder)
        ensures
            r.title is None,
            r.sections.len() == 0,
    {
        Builder { title: None, sections: Vec::new() }
    }
}

} // verus!
