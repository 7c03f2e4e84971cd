//! The read-failure error of the command surface.
//!
//! Reads themselves are the surrounding application's; what it gets from
//! the operating system is wrapped here, so that the message handed to the
//! caller is fixed by contract: the kind of read that failed and the
//! underlying cause.

use vstd::prelude::*;
use vstd::string::StringExecFns;

verus! {

/// A failed read: of a text file, or of an image; each carries the
/// operating system's description of the cause.
#[derive(Debug)]
pub enum IoError {
    ReadFile(String),
    ReadImage(String),
}

impl IoError {
    /// The human-readable description handed back to the caller.
    pub fn message(&self) -> (m: String)
        ensures
            self is ReadFile ==> m@ == "Failed to read file: "@ + self->ReadFile_0@,
            self is ReadImage ==> m@ == "Failed to read image: "@ + self->ReadImage_0@,
    {
        match self {
            IoError::ReadFile(cause) => String::from_str("Failed to read file: ").concat(
                cause.as_str(),
            ),
            IoError::ReadImage(cause) => String::from_str("Failed to read image: ").concat(
                cause.as_str(),
            ),
        }
    }
}

} // verus!
