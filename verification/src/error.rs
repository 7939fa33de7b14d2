//! The ways in which the engine can refuse.

use vstd::prelude::*;

verus! {

/// A failure of the engine that this layer reports and never retries.
#[derive(Clone, Copy, Debug, PartialEq, Eq, Structural)]
pub enum Error {
    /// The engine returned no recognizer for the configuration.
    CreationFailed,
    /// The engine returned no stream for the recognizer.
    StreamCreationFailed,
    /// The engine returned no snapshot of the decoded state.
    ResultFetchFailed,
}

impl Error {
    /// The text of [`Error::message`].
    pub open spec fn spec_message(self) -> Seq<char> {
        match self {
            Error::CreationFailed => "Failed to create recognizer"@,
            Error::StreamCreationFailed => "create stream fail"@,
            Error::ResultFetchFailed => "get result failed"@,
        }
    }

    /// One line for a person to read.
    pub fn message(&self) -> (text: String)
        ensures
            text@ == self.spec_message(),
    {
        match self {
            Error::CreationFailed => String::from_str("Failed to create recognizer"),
            Error::StreamCreationFailed => String::from_str("create stream fail"),
            Error::ResultFetchFailed => String::from_str("get result failed"),
        }
    }
}

} // verus!
