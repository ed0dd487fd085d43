//! Configuration for rendering a report.

use vstd::prelude::*;

verus! {

/// Configuration for rendering a [`Report`](super::Report).
#[derive(Clone, Copy, Debug)]
pub struct Config {
    /// The width of the rendered report, in characters.
    pub width: usize,
    /// Whether to write out descriptions of each test result.
    pub write_test_result_descriptions: bool,
}

impl Config {
    /// Gets the width of this report.
    pub fn width(&self) -> (r: usize)
        ensures
            r == self.width,
    {
        self.width
    }

    /// Returns whether or not descriptions of test reports will be written.
    pub fn write_test_result_descriptions(&self) -> (r: bool)
        ensures
            r == self.write_test_result_descriptions,
    {
        self.write_test_result_descriptions
    }
}

impl Default for Config {
    /// The default configuration: 80 characters wide, with descriptions.
    fn default() -> (r: Config)
        ensures
            r.width == 80,
            r.write_test_result_descriptions,
    {
        Config { width: 80, write_test_result_descriptions: true }
    }
}

} // verus!
