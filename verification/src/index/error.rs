//! The error of the index wrapper.

use vstd::prelude::*;

verus! {

pub type TextIndexResult<T> = Result<T, TextIndexError>;

/// Where an error of the index wrapper comes from.
#[derive(Debug, Clone, Copy, PartialEq, Eq, Structural)]
pub enum TextIndexErrorKind {
    /// The directory of the index could not be opened.
    OpenDirectory,
    /// The engine failed: at opening, or at a commit or a rollback.
    Engine,
    /// The lock of the index was poisoned by a panic of its holder.
    Poison,
    /// The schema cannot be declared to the engine.
    Schema,
}

/// A failure of the index wrapper itself, as opposed to a failure of the
/// work that ran inside it.
#[derive(Debug)]
pub struct TextIndexError {
    kind: TextIndexErrorKind,
    message: String,
}

/// An error of the index wrapper as a mathematical value.
pub struct TextIndexErrorView {
    pub kind: TextIndexErrorKind,
    pub message: Seq<char>,
}

impl View for TextIndexError {
    type V = TextIndexErrorView;

    closed spec fn view(&self) -> TextIndexErrorView {
        TextIndexErrorView { kind: self.kind, message: self.message@ }
    }
}

impl TextIndexError {
    /// The directory of the index could not be opened; `error` is what the
    /// engine says.
    pub fn open_directory_error(error: &str) -> (result: TextIndexError)
        ensures
            result@ == (TextIndexErrorView {
                kind: TextIndexErrorKind::OpenDirectory,
                message: error@,
            }),
    {
        TextIndexError { kind: TextIndexErrorKind::OpenDirectory, message: error.to_owned() }
    }

    /// The engine failed; `error` is what it says.
    pub fn tantivy_error(error: &str) -> (result: TextIndexError)
        ensures
            result@ == (TextIndexErrorView { kind: TextIndexErrorKind::Engine, message: error@ }),
    {
        TextIndexError { kind: TextIndexErrorKind::Engine, message: error.to_owned() }
    }

    /// The lock of the index was poisoned; `error` is what the lock says.
    pub fn poison_error(error: &str) -> (result: TextIndexError)
        ensures
            result@ == (TextIndexErrorView {
                kind: TextIndexErrorKind::Poison,
                message: error@,
            }),
    {
        TextIndexError { kind: TextIndexErrorKind::Poison, message: error.to_owned() }
    }

    /// The schema cannot be declared to the engine, for the reason given.
    pub fn schema_error(reason: &str) -> (result: TextIndexError)
        ensures
            result@ == (TextIndexErrorView {
                kind: TextIndexErrorKind::Schema,
                message: reason@,
            }),
    {
        TextIndexError { kind: TextIndexErrorKind::Schema, message: reason.to_owned() }
    }

    /// Where the error comes from.
    pub fn kind(&self) -> (kind: TextIndexErrorKind)
        ensures
            kind == self@.kind,
    {
        self.kind
    }

    /// The message.
    pub fn to_string(&self) -> (message: String)
        ensures
            message@ == self@.message,
    {
        self.message.clone()
    }
}

} // verus!
