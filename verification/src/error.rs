//! The error that every fallible operation of the crate reports.

use vstd::prelude::*;

verus! {

/// A failure described by a human-readable message.
#[derive(Debug)]
pub struct CustomError {
    pub message: String,
}

impl View for CustomError {
    type V = Seq<char>;

    open spec fn view(&self) -> Seq<char> {
        self.message@
    }
}

impl CustomError {
    /// Wraps `message` without altering it.
    pub fn new(message: String) -> (err: CustomError)
        ensures
            err@ == message@,
            err.message == message,
    {
        CustomError { message }
    }

    /// The message, as text to show to a person.
    pub fn to_string(&self) -> (text: String)
        ensures
            text@ == self@,
    {
        self.message.clone()
    }
}

} // verus!
