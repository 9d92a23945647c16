//! The errors a build reports. Any failure is fatal to the whole run: the
//! first unreadable directory or unrepresentable name aborts the traversal,
//! and the error surfaces to the caller with the offending path.

use vstd::prelude::*;

verus! {

/// Why a directory-listing collaborator could not answer for one directory.
#[derive(Clone, Copy, Debug, PartialEq, Eq, Structural)]
pub enum ListFailure {
    /// The directory could not be listed: missing, permission denied, or not
    /// a directory after all.
    Unreadable,
    /// An entry's name could not be converted to displayable text.
    BadName,
}

/// The error a failed build surfaces, carrying the offending path.
#[derive(Debug, PartialEq, Eq)]
pub enum RenderError {
    IoError(String),
    EncodingError(String),
}

impl RenderError {
    /// The path the error is about.
    pub fn path(&self) -> (r: &String)
        ensures
            r@ == self.spec_path(),
    {
        match self {
            RenderError::IoError(path) => path,
            RenderError::EncodingError(path) => path,
        }
    }

    /// The path the error is about, as a sequence of characters.
    pub open spec fn spec_path(&self) -> Seq<char> {
        match self {
            RenderError::IoError(path) => path@,
            RenderError::EncodingError(path) => path@,
        }
    }

    /// Whether this error is the one a listing failure of the given kind at
    /// the given path turns into: the kind picks the variant, and the error
    /// carries that path.
    pub open spec fn spec_is_for_failure(&self, failure: ListFailure, path: Seq<char>) -> bool {
        &&& self.spec_path() == path
        &&& (self is IoError <==> failure == ListFailure::Unreadable)
        &&& (self is EncodingError <==> failure == ListFailure::BadName)
    }
}

} // verus!
