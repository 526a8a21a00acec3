//! Failures of sandbox construction and staging.

use vstd::prelude::*;

verus! {

/// The three failure kinds of the sandbox.
///
/// - `Setup`: obtaining the sandbox directory or entering it failed
///   (an environment condition, reported by the constructors).
/// - `Usage`: the staging request itself was malformed — the source is
///   neither a file nor a directory, or the destination is not relative.
///   A defect of the test definition, never an environment condition.
/// - `Staging`: an I/O failure while copying content into the sandbox.
///
/// Each variant carries a human-readable description.
#[derive(Debug)]
pub enum AssayError {
    Setup(String),
    Usage(String),
    Staging(String),
}

impl AssayError {
    /// The description carried by the error.
    pub open spec fn message_view(self) -> Seq<char> {
        match self {
            AssayError::Setup(m) => m@,
            AssayError::Usage(m) => m@,
            AssayError::Staging(m) => m@,
        }
    }

    /// The human-readable description of the failure.
    pub fn message(&self) -> (r: &String)
        ensures
            r@ == self.message_view(),
    {
        match self {
            AssayError::Setup(m) => m,
            AssayError::Usage(m) => m,
            AssayError::Staging(m) => m,
        }
    }

    /// True exactly for a usage defect of the staging request.
    pub fn is_usage(&self) -> (r: bool)
        ensures
            r == (self is Usage),
    {
        match self {
            AssayError::Usage(_) => true,
            _ => false,
        }
    }
}

} // verus!
