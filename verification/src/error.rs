//! What can go wrong in the pager.

use vstd::prelude::*;
use vstd::string::StringExecFns;

verus! {

/// An error of the pager. Where the cause lies outside the program, the error
/// carries the text in which that cause describes itself.
#[derive(Debug, Clone, PartialEq, Eq)]
pub enum MorelError {
    /// Reading the file failed.
    FileRead(String),
    /// The terminal could not be driven or read.
    Terminal(String),
    /// There is no file at the given path.
    FileNotFound(String),
    /// The watch on the file could not be set up.
    Watcher(String),
    /// The file is gone.
    FileDeleted,
}

impl MorelError {
    /// The text of the message that describes this error.
    pub open spec fn message_text(self) -> Seq<char> {
        match self {
            MorelError::FileRead(cause) => "Failed to read file: "@ + cause@,
            MorelError::Terminal(cause) => "Terminal error: "@ + cause@,
            MorelError::FileNotFound(path) => "File not found: "@ + path@,
            MorelError::Watcher(cause) => "File watcher error: "@ + cause@,
            MorelError::FileDeleted => "The file was deleted"@,
        }
    }

    /// The message that describes this error to the user.
    pub fn message(&self) -> (text: String)
        ensures
            text@ == self.message_text(),
    {
        match self {
            MorelError::FileRead(cause) => String::from_str("Failed to read file: ").concat(
                cause.as_str(),
            ),
            MorelError::Terminal(cause) => String::from_str("Terminal error: ").concat(
                cause.as_str(),
            ),
            MorelError::FileNotFound(path) => String::from_str("File not found: ").concat(
                path.as_str(),
            ),
            MorelError::Watcher(cause) => String::from_str("File watcher error: ").concat(
                cause.as_str(),
            ),
            MorelError::FileDeleted => String::from_str("The file was deleted"),
        }
    }
}

} // verus!
