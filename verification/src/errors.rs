//! The ways in which the outside world can fail the browser, one closed
//! enumeration per operation.

use vstd::prelude::*;

verus! {

/// Why the children of a directory could not be listed.
#[derive(Clone, Copy, Debug, PartialEq, Eq, Structural)]
pub enum ListError {
    /// The path does not exist.
    NotFound,
    /// The path exists but is not a directory.
    NotADirectory,
    /// The directory may not be read.
    PermissionDenied,
    /// Any other failure of the listing.
    Other,
}

/// Why the metadata of an entry could not be read.
#[derive(Clone, Copy, Debug, PartialEq, Eq, Structural)]
pub enum MetaError {
    /// The entry vanished between listing and query.
    NotFound,
    /// The entry may not be inspected.
    PermissionDenied,
    /// Any other failure of the query.
    Other,
}

/// Why the content of a file could not be read as text.
#[derive(Clone, Copy, Debug, PartialEq, Eq, Structural)]
pub enum ReadError {
    /// The file does not exist.
    NotFound,
    /// The file may not be read.
    PermissionDenied,
    /// The content is not text.
    NotText,
    /// Any other failure of the read.
    Other,
}

/// Why the browser could not start.
#[derive(Clone, Copy, Debug, PartialEq, Eq, Structural)]
pub enum InitError {
    /// The starting directory could not be listed.
    Listing(ListError),
}

/// Why a change of directory was not carried out.
#[derive(Clone, Copy, Debug, PartialEq, Eq, Structural)]
pub enum NavError {
    /// The directory to move to could not be listed.
    Listing(ListError),
}

/// The words that describe a metadata failure to the user.
pub open spec fn meta_error_text(e: MetaError) -> Seq<char> {
    match e {
        MetaError::NotFound => "entry not found"@,
        MetaError::PermissionDenied => "permission denied"@,
        MetaError::Other => "metadata unavailable"@,
    }
}

impl MetaError {
    /// The words that describe this failure to the user.
    pub fn describe(&self) -> (words: &'static str)
        ensures
            words@ == meta_error_text(*self),
    {
        match self {
            MetaError::NotFound => "entry not found",
            MetaError::PermissionDenied => "permission denied",
            MetaError::Other => "metadata unavailable",
        }
    }
}

} // verus!
