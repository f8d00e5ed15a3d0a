//! The failures that the crate reports.

use vstd::prelude::*;
use crate::structure::semver::Semver;

verus! {

/// Why an operation of this crate failed. Every failure is returned to the
/// caller; none ends the process.
#[derive(Debug, PartialEq, Eq)]
pub enum AniseError {
    /// No record of physical constants is registered under `name`.
    NotFound { name: String },
    /// The record registered under `name` lacks the data named by `parameter`.
    ParameterNotSpecified { name: String, parameter: String },
    /// The input does not begin with a well-formed record: a field has another
    /// tag than expected, a length that is malformed or runs past the input, or
    /// a value that is not a valid one of its kind.
    DecodeError,
    /// The record is too long to be written in this format.
    EncodeError,
    /// The file was written for version `found`, whose major component is
    /// beyond the one of `supported`, the version that the reader implements.
    VersionIncompatible { found: Semver, supported: Semver },
    /// `name` cannot be registered: its identifier is the one of `registered`,
    /// a name that the store already holds.
    HashCollision { name: String, registered: String },
}

} // verus!
