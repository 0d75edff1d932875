//! The ways in which an operation of this library can fail.

use vstd::prelude::*;

verus! {

/// Why an operation was refused or could not be completed.
#[derive(Debug, Clone, Copy, PartialEq, Eq, Structural)]
pub enum RotateError {
    /// A source could not be read as a file, or an archive could not be
    /// written in full.
    IoError,
    /// An encoder was handed the tag of another archive format.
    ArchiveTypeMismatch,
}

impl RotateError {
    /// The wording of this error, as a sequence of characters.
    pub open spec fn message(self) -> Seq<char> {
        match self {
            RotateError::IoError => "file could not be read or written"@,
            RotateError::ArchiveTypeMismatch => "archive type did not match the encoder"@,
        }
    }

    /// A sentence that describes this error.
    pub fn describe(&self) -> (text: String)
        ensures
            text@ == self.message(),
    {
        match self {
            RotateError::IoError => "file could not be read or written".to_owned(),
            RotateError::ArchiveTypeMismatch => "archive type did not match the encoder".to_owned(),
        }
    }
}

} // verus!
