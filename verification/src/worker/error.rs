//! The error of the synchronisation worker.

use crate::index::TextIndexError;
use vstd::prelude::*;
use vstd::string::StringExecFns;

verus! {

pub type WorkerResult<T> = Result<T, WorkerError>;

/// Where an error of the worker comes from.
#[derive(Debug, Clone, Copy, PartialEq, Eq, Structural)]
pub enum WorkerErrorKind {
    /// The checkpoint file could not be read or written.
    Io,
    /// The checkpoint file does not hold a checkpoint.
    Yaml,
    /// The source could not be reached.
    Connection,
    /// The source refused the query.
    Query,
    /// The stream of rows broke.
    Stream,
    /// A value of a row could not be read as the type of its field.
    Value,
    /// The index wrapper failed.
    TextIndex,
    /// A field of the schema is not a field of the index.
    FieldNotFound,
}

/// What ended a cycle of the worker before its checkpoint could advance.
#[derive(Debug)]
pub struct WorkerError {
    kind: WorkerErrorKind,
    message: String,
}

/// An error of the worker as a mathematical value.
pub struct WorkerErrorView {
    pub kind: WorkerErrorKind,
    pub message: Seq<char>,
}

impl View for WorkerError {
    type V = WorkerErrorView;

    closed spec fn view(&self) -> WorkerErrorView {
        WorkerErrorView { kind: self.kind, message: self.message@ }
    }
}

/// The message for a field of the schema that the index does not have.
pub open spec fn not_found(name: Seq<char>) -> Seq<char> {
    "Field `"@ + name + "` not found"@
}

/// The message for a value that is not of the type of its field.
pub open spec fn wrong_type(column: Seq<char>) -> Seq<char> {
    "Value of column `"@ + column + "` has the wrong type"@
}

impl WorkerError {
    /// The checkpoint file could not be read or written; `error` is what
    /// the system says.
    pub fn io_error(error: &str) -> (result: WorkerError)
        ensures
            result@ == (WorkerErrorView { kind: WorkerErrorKind::Io, message: error@ }),
    {
        WorkerError { kind: WorkerErrorKind::Io, message: error.to_owned() }
    }

    /// The checkpoint file does not hold a checkpoint; `error` is what the
    /// reader says.
    pub fn yaml_error(error: &str) -> (result: WorkerError)
        ensures
            result@ == (WorkerErrorView { kind: WorkerErrorKind::Yaml, message: error@ }),
    {
        WorkerError { kind: WorkerErrorKind::Yaml, message: error.to_owned() }
    }

    /// The source could not be reached; `error` is what it says.
    pub fn connection_error(error: &str) -> (result: WorkerError)
        ensures
            result@ == (WorkerErrorView { kind: WorkerErrorKind::Connection, message: error@ }),
    {
        WorkerError { kind: WorkerErrorKind::Connection, message: error.to_owned() }
    }

    /// The source refused the query; `error` is what it says.
    pub fn query_error(error: &str) -> (result: WorkerError)
        ensures
            result@ == (WorkerErrorView { kind: WorkerErrorKind::Query, message: error@ }),
    {
        WorkerError { kind: WorkerErrorKind::Query, message: error.to_owned() }
    }

    /// The stream of rows broke; `error` is what the source says.
    pub fn stream_error(error: &str) -> (result: WorkerError)
        ensures
            result@ == (WorkerErrorView { kind: WorkerErrorKind::Stream, message: error@ }),
    {
        WorkerError { kind: WorkerErrorKind::Stream, message: error.to_owned() }
    }

    /// The source could not give a value as the type that was asked for;
    /// `error` is what it says.
    pub fn value_error(error: &str) -> (result: WorkerError)
        ensures
            result@ == (WorkerErrorView { kind: WorkerErrorKind::Value, message: error@ }),
    {
        WorkerError { kind: WorkerErrorKind::Value, message: error.to_owned() }
    }

    /// A value that is not of the type of the field read from `column`.
    pub fn type_error(column: &str) -> (result: WorkerError)
        ensures
            result@ == (WorkerErrorView {
                kind: WorkerErrorKind::Value,
                message: wrong_type(column@),
            }),
    {
        let mut message = String::from_str("Value of column `");
        message.append(column);
        message.append("` has the wrong type");
        WorkerError { kind: WorkerErrorKind::Value, message }
    }

    /// The index wrapper failed; the message is kept.
    pub fn text_index_error(error: TextIndexError) -> (result: WorkerError)
        ensures
            result@ == (WorkerErrorView {
                kind: WorkerErrorKind::TextIndex,
                message: error@.message,
            }),
    {
        WorkerError { kind: WorkerErrorKind::TextIndex, message: error.to_string() }
    }

    /// The field named `name` is not a field of the index.
    pub fn field_not_found(name: &str) -> (result: WorkerError)
        ensures
            result@ == (WorkerErrorView {
                kind: WorkerErrorKind::FieldNotFound,
                message: not_found(name@),
            }),
    {
        let mut message = String::from_str("Field `");
        message.append(name);
        message.append("` not found");
        WorkerError { kind: WorkerErrorKind::FieldNotFound, message }
    }

    /// Where the error comes from.
    pub fn kind(&self) -> (kind: WorkerErrorKind)
        ensures
            kind == self@.kind,
    {
        self.kind
    }

    /// The message.
    pub fn to_string(&self) -> (message: String)
        ensures
            message@ == self@.message,
    {
        self.message.clone()
    }
}

} // verus!
