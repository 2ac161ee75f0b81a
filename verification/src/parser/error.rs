//! The error of the query parser.

use vstd::prelude::*;

verus! {

pub type QueryParserResult<T> = Result<T, QueryParserError>;

/// A query that does not follow the grammar, with the reason in words.
#[derive(Debug)]
pub struct QueryParserError {
    message: String,
}

impl View for QueryParserError {
    type V = Seq<char>;

    /// The message.
    closed spec fn view(&self) -> Seq<char> {
        self.message@
    }
}

impl QueryParserError {
    /// An error with the given message.
    pub fn new(message: &str) -> (error: QueryParserError)
        ensures
            error@ == message@,
    {
        QueryParserError { message: message.to_owned() }
    }

    /// The message.
    pub fn to_string(&self) -> (message: String)
        ensures
            message@ == self@,
    {
        self.message.clone()
    }
}

} // verus!
