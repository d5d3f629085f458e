//! The conditions that the browser reports.
use vstd::prelude::*;

verus! {

/// A failure that reaches the user. A missing metadata field or a failed metadata
/// tool is not one: it reads as `"Unknown"`.
#[derive(Clone, Copy, Debug, PartialEq, Eq, Structural)]
pub enum BrowseError {
    /// The directory could not be listed: no catalog can be built.
    DirectoryUnreadable,
    /// Navigation was asked of a catalog with no documents.
    EmptyCatalog,
    /// The viewer could not be started or waited for.
    OpenFailed,
}

impl BrowseError {
    /// A one-line description for the user.
    pub fn message(&self) -> (r: &'static str)
        ensures
            *self == BrowseError::DirectoryUnreadable ==> r@ == "the directory cannot be read"@,
            *self == BrowseError::EmptyCatalog ==> r@ == "there are no documents to move through"@,
            *self == BrowseError::OpenFailed ==> r@ == "the viewer could not be started"@,
    {
        match self {
            BrowseError::DirectoryUnreadable => "the directory cannot be read",
            BrowseError::EmptyCatalog => "there are no documents to move through",
            BrowseError::OpenFailed => "the viewer could not be started",
        }
    }
}

} // verus!
