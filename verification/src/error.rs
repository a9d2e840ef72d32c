//! The failure taxonomy of the library: parse failures, unknown
//! dependency markers, irreconcilable version strings, I/O reported by
//! callers, and errors the remote service hands back.
use vstd::prelude::*;

verus! {

/// An error message returned by the remote mod service.
#[derive(Debug, PartialEq, Eq)]
pub struct APIError {
    pub message: String,
}

impl APIError {
    /// The human-readable text of the error.
    pub fn text(&self) -> (r: String)
        ensures
            r@ == self.message@,
    {
        self.message.clone()
    }
}

/// Every failure the library reports. A release set that merely filters
/// to empty is not an error; it is an absent result.
#[derive(Debug, PartialEq, Eq)]
pub enum Error {
    /// A dependency line or a version range that does not parse.
    ParcingError(String),
    /// A dependency marker token that is none of the known five.
    InvalidPreffix(String),
    /// A raw version string that the legacy rewrite cannot reconcile.
    VersionError(String),
    /// An I/O failure reported by a caller, as text.
    IoError(String),
    /// A failure reported by the remote service.
    APIError(APIError),
}

} // verus!
