//! The errors a classification of a filesystem path can surface: a path
//! that cannot be found, a read that fails, or a path that is not valid
//! text. Malformed file content is never an error; it degrades to an empty
//! result.

use vstd::prelude::*;

use vstd::string::StringExecFns;

verus! {

/// An error from classifying a filesystem path.
#[derive(Debug)]
pub enum IdentifyError {
    /// The path does not exist on the filesystem.
    PathNotFound { path: String },
    /// A read of metadata or content failed.
    IoError { message: String },
    /// The path holds invalid text.
    InvalidPath { path: String },
    /// Content expected to be text holds invalid bytes.
    InvalidUtf8,
}

impl IdentifyError {
    /// A human-readable description of the error.
    pub fn message(&self) -> (r: String)
        ensures
            (match self {
                IdentifyError::PathNotFound { path } => r@ == path@ + " does not exist."@,
                IdentifyError::IoError { message } => r@ == "IO error: "@ + message@,
                IdentifyError::InvalidPath { path } => r@ == "Path contains invalid UTF-8: "@
                    + path@,
                IdentifyError::InvalidUtf8 => r@ == "File contains invalid UTF-8 content"@,
            }),
    {
        match self {
            IdentifyError::PathNotFound { path } => path.clone().concat(" does not exist."),
            IdentifyError::IoError { message } => String::from_str("IO error: ").concat(
                message.as_str(),
            ),
            IdentifyError::InvalidPath { path } => String::from_str(
                "Path contains invalid UTF-8: ",
            ).concat(path.as_str()),
            IdentifyError::InvalidUtf8 => String::from_str("File contains invalid UTF-8 content"),
        }
    }
}

} // verus!
