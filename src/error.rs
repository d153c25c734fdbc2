//! The single error kind of signature verification.

use vstd::prelude::*;
use vstd::string::StringExecFns;

verus! {

/// A failure, carrying a human-readable message and nothing else.
///
/// There is deliberately one kind of error only: callers cannot tell a
/// malformed key from a malformed signature or a mismatch.
#[derive(Clone, Debug, PartialEq, Eq)]
pub struct Error {
    message: String,
}

impl View for Error {
    type V = Seq<char>;

    /// The error's message.
    closed spec fn view(&self) -> Seq<char> {
        self.message@
    }
}

impl Error {
    /// An error with the given message.
    pub fn new(message: &str) -> (e: Error)
        ensures
            e@ == message@,
    {
        Error { message: String::from_str(message) }
    }

    /// The message that describes the failure.
    pub fn message(&self) -> (r: &str)
        ensures
            r@ == self@,
    {
        self.message.as_str()
    }
}

} // verus!
