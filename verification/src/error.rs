//! What can go wrong, and how it is told.

use vstd::prelude::*;
use vstd::string::StringExecFns;

verus! {

/// The ways in which work on an Upspin path can fail.
#[derive(Debug, PartialEq, Eq)]
pub enum UpspinError {
    /// The name could not be parsed. No name is refused today: every string parses.
    ParseError,
    /// The path, given here in full, is not readable by everyone.
    NotPublic(String),
    /// The destination file could not be created; the text says why.
    IOError(String),
    /// The `upspin` program could not be started; the text says why.
    InvocationError(String),
    /// The `upspin` program ran and reported failure.
    DownloadFailed,
}

impl UpspinError {
    /// The error in words.
    pub open spec fn message_text(self) -> Seq<char> {
        match self {
            UpspinError::ParseError => "Could not parse path"@,
            UpspinError::NotPublic(name) => "Path "@ + name@ + " is not public"@,
            UpspinError::IOError(reason) => "Could not create output file: "@ + reason@,
            UpspinError::InvocationError(reason) => "Could not download: "@ + reason@,
            UpspinError::DownloadFailed => "Could not download"@,
        }
    }

    /// The error in words, for a person to read.
    pub fn message(&self) -> (r: String)
        ensures
            r@ == self.message_text(),
    {
        match self {
            UpspinError::ParseError => "Could not parse path".to_owned(),
            UpspinError::NotPublic(name) => "Path ".to_owned().concat(name.as_str()).concat(
                " is not public",
            ),
            UpspinError::IOError(reason) => "Could not create output file: ".to_owned().concat(
                reason.as_str(),
            ),
            UpspinError::InvocationError(reason) => "Could not download: ".to_owned().concat(
                reason.as_str(),
            ),
            UpspinError::DownloadFailed => "Could not download".to_owned(),
        }
    }
}

} // verus!
