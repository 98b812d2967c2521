//! What reading, writing and removing a small state file can come to.

use vstd::prelude::*;

verus! {

/// What the disk held where a state file belongs.
#[derive(Debug, Clone, PartialEq, Eq)]
pub enum Stored<T> {
    /// No file.
    Missing,
    /// A file that could not be read.
    ReadFailed,
    /// A file that holds something else than the expected record.
    Malformed,
    /// A file that holds a record, of whatever schema version.
    Parsed(T),
}

/// A state file as its reader understands it.
///
/// `Absent` and `Unusable` are opposite facts: the first says nothing was
/// recorded, the second that something was.
#[derive(Debug)]
pub enum StateFile<T> {
    Absent,
    Unusable,
    Present(T),
}

impl<T: View> View for StateFile<T> {
    type V = StateFile<T::V>;

    open spec fn view(&self) -> StateFile<T::V> {
        match self {
            StateFile::Absent => StateFile::Absent,
            StateFile::Unusable => StateFile::Unusable,
            StateFile::Present(t) => StateFile::Present(t@),
        }
    }
}

/// Why a file could not be removed.
#[derive(Debug, Clone, PartialEq, Eq)]
pub enum RemoveFailure {
    /// There was no such file.
    NotFound,
    /// Anything else; the operating system's words.
    Other(String),
}

/// Removing a file that is not there is no failure.
pub open spec fn removal_outcome(removed: Result<(), RemoveFailure>) -> Result<(), String> {
    match removed {
        Ok(()) => Ok(()),
        Err(RemoveFailure::NotFound) => Ok(()),
        Err(RemoveFailure::Other(e)) => Err(e),
    }
}

/// The outcome of clearing a state file, from the outcome of removing it.
pub fn tolerate_absence(removed: Result<(), RemoveFailure>) -> (r: Result<(), String>)
    ensures
        r == removal_outcome(removed),
{
    match removed {
        Ok(()) => Ok(()),
        Err(RemoveFailure::NotFound) => Ok(()),
        Err(RemoveFailure::Other(e)) => Err(e),
    }
}

} // verus!
