//! The structured result model: reports, sections, and modules.
//!
//! A report is the only artefact the analyses hand to a rendering layer:
//! a title, the date it was produced, and a non-empty ordered list of test
//! sections, where each section carries a title, a description, and a
//! non-empty ordered list of pass / inconclusive / fail modules.

use vstd::prelude::*;

pub mod builder;
pub mod config;
pub mod section;

pub use builder::Builder;
pub use config::Config;
pub use section::Section;

verus! {

/// A calendar date, held as plain year, month, and day numbers.
#[derive(Clone, Copy, Debug, PartialEq, Eq, Structural)]
pub struct Date {
    /// The calendar year.
    pub year: i32,
    /// The month, from 1 to 12.
    pub month: u8,
    /// The day of the month, from 1 to 31.
    pub day: u8,
}

impl Date {
    /// Months run from 1 to 12 and days from 1 to 31.
    pub open spec fn wf(&self) -> bool {
        1 <= self.month <= 12 && 1 <= self.day <= 31
    }
}

/// A report for a suite of tests: a title, the date the suite ran, and the
/// sections for each test, in the order the tests ran.
#[derive(Debug)]
pub struct Report {
    /// The title of the test suite.
    pub title: String,
    /// The date that the test suite was run.
    pub date: Date,
    /// The sections within the report.
    pub sections: Vec<Section>,
}

impl Report {
    /// A report holds at least one section and a sensible date.
    pub open spec fn wf(&self) -> bool {
        self.sections.len() >= 1 && self.date.wf()
    }

    /// Gets the title from the [`Report`].
    pub fn title(&self) -> (r: &String)
        ensures
            r == &self.title,
    {
        &self.title
    }

    /// Gets the date from the [`Report`].
    pub fn date(&self) -> (r: Date)
        ensures
            r == self.date,
    {
        self.date
    }

    /// Gets the sections from the [`Report`].
    pub fn sections(&self) -> (r: &Vec<Section>)
        ensures
            r == &self.sections,
    {
        &self.sections
    }
}

} // verus!
