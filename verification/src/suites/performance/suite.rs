//! A builder for a performance [`Suite`](super::Suite).

use vstd::prelude::*;

use crate::hash::HashCapability;
use crate::providers::Provider;
use crate::suites::performance::Suite;

verus! {

/// An error when a required field is missing.
#[derive(Clone, Copy, Debug, PartialEq, Eq, Structural)]
pub enum MissingError {
    /// No hash capability was provided to the [`Builder`].
    BuildHasher,
}

/// An error when multiple values are provided for a singular field.
#[derive(Clone, Copy, Debug, PartialEq, Eq, Structural)]
pub enum MultipleError {
    /// Multiple hash capabilities were provided to the [`Builder`].
    BuildHasher,
}

/// An error related to a [`Builder`].
#[derive(Clone, Copy, Debug, PartialEq, Eq, Structural)]
pub enum Error {
    /// A required field was missing from the [`Builder`].
    Missing(MissingError),
    /// Multiple values were provided for a singular field in the [`Builder`].
    Multiple(MultipleError),
}

/// A builder for a performance [`Suite`]: the hash capability is a required
/// single-valued field.
pub struct Builder<'a, H: HashCapability> {
    /// The hash capability under evaluation.
    pub build_hasher: Option<&'a H>,
}

impl<'a, H: HashCapability> Builder<'a, H> {
    /// Creates an empty [`Builder`].
    pub fn new() -> (r: Builder<'a, H>)
        ensures
            r.build_hasher is None,
    {
        Builder { build_hasher: None }
    }

    /// Sets the hash capability for this [`Builder`]; setting it twice is
    /// an error.
    pub fn build_hasher(self, build_hasher: &'a H) -> (r: Result<Builder<'a, H>, Error>)
        ensures
            match r {
                Ok(b) => self.build_hasher is None && b.build_hasher == Some(build_hasher),
                Err(e) => self.build_hasher is Some && e == Error::Multiple(
                    MultipleError::BuildHasher,
                ),
            },
    {
        if self.build_hasher.is_some() {
            return Err(Error::Multiple(MultipleError::BuildHasher));
        }
        Ok(Builder { build_hasher: Some(build_hasher) })
    }

    /// Consumes `self` and attempts to build a [`Suite`] with no tests run
    /// yet; fails, naming the field, when the hash capability was never
    /// set.
    pub fn try_build<P: Provider>(self) -> (r: Result<Suite<'a, H, P>, Error>)
        ensures
            match r {
                Ok(s) => self.build_hasher is Some && s.spec_tests().len() == 0,
                Err(e) => self.build_hasher is None && e == Error::Missing(
                    MissingError::BuildHasher,
                ),
            },
    {
        let build_hasher = match self.build_hasher {
            Some(h) => h,
            None => {
                return Err(Error::Missing(MissingError::BuildHasher));
            },
        };
        Ok(Suite::empty(build_hasher))
    }
}

impl<'a, H: HashCapability> Default for Builder<'a, H> {
    /// An empty builder.
    fn default() -> (r: Builder<'a, H>)
        ensures
            r.build_hasher is None,
    {
        Builder { build_hasher: None }
    }
}

} // verus!
