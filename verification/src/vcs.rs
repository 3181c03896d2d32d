//! Classification of version-control initialization failures. The workflow
//! recognizes exactly one class/code pair — a missing author identity in the
//! global configuration — as a soft failure; everything else is reported as
//! a warning.

use vstd::prelude::*;

verus! {

/// The error class reported by the version-control initializer, reduced to
/// the distinction the workflow acts on: configuration errors versus the
/// rest.
#[derive(Clone, Copy, Debug, PartialEq, Eq, Structural)]
pub enum VcsErrorClass {
    Config,
    Other,
}

/// The error code reported by the version-control initializer, reduced to
/// the distinction the workflow acts on: a not-found lookup versus the rest.
#[derive(Clone, Copy, Debug, PartialEq, Eq, Structural)]
pub enum VcsErrorCode {
    NotFound,
    Other,
}

/// A classified version-control failure: a class/code pair.
#[derive(Clone, Copy, Debug, PartialEq, Eq, Structural)]
pub struct VcsError {
    pub class: VcsErrorClass,
    pub code: VcsErrorCode,
}

/// Whether a failure means that no author identity is configured: the
/// configuration-missing class together with the not-found code.
pub open spec fn spec_identity_missing(e: VcsError) -> bool {
    e.class == VcsErrorClass::Config && e.code == VcsErrorCode::NotFound
}

impl VcsError {
    /// Whether this failure means that no author identity is configured.
    pub fn is_identity_missing(&self) -> (r: bool)
        ensures
            r == spec_identity_missing(*self),
    {
        self.class == VcsErrorClass::Config && self.code == VcsErrorCode::NotFound
    }
}

} // verus!
