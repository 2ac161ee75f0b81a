//! The error of a request.

use vstd::prelude::*;

verus! {

pub type HandlerResult<T> = Result<T, HandlerError>;

/// A request that cannot be answered, with the reason in words.
#[derive(Debug)]
pub struct HandlerError {
    message: String,
}

impl View for HandlerError {
    type V = Seq<char>;

    /// The message.
    closed spec fn view(&self) -> Seq<char> {
        self.message@
    }
}

impl HandlerError {
    /// An error with the given message.
    pub fn new(message: &str) -> (error: HandlerError)
        ensures
            error@ == message@,
    {
        HandlerError { message: message.to_owned() }
    }

    /// The message.
    pub fn to_string(&self) -> (message: String)
        ensures
            message@ == self@,
    {
        self.message.clone()
    }
}

} // verus!
