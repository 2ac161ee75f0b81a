//! The error that ends the program before it serves.

use crate::config::ConfigError;
use crate::index::TextIndexError;
use crate::worker::WorkerError;
use vstd::prelude::*;

verus! {

pub type ApplicationResult = Result<(), ApplicationError>;

/// Why the program could not start.
#[derive(Debug)]
pub enum ApplicationError {
    ConfigError { message: String },
    TextIndexError { message: String },
    WorkerError { message: String },
}

/// An application error as a mathematical value.
pub enum ApplicationErrorView {
    ConfigError { message: Seq<char> },
    TextIndexError { message: Seq<char> },
    WorkerError { message: Seq<char> },
}

impl View for ApplicationError {
    type V = ApplicationErrorView;

    open spec fn view(&self) -> ApplicationErrorView {
        match *self {
            ApplicationError::ConfigError { message } => ApplicationErrorView::ConfigError {
                message: message@,
            },
            ApplicationError::TextIndexError { message } => ApplicationErrorView::TextIndexError {
                message: message@,
            },
            ApplicationError::WorkerError { message } => ApplicationErrorView::WorkerError {
                message: message@,
            },
        }
    }
}

impl ApplicationError {
    /// The configuration cannot be used.
    pub fn config_error(error: ConfigError) -> (result: ApplicationError)
        ensures
            result@ == (ApplicationErrorView::ConfigError { message: error@ }),
    {
        ApplicationError::ConfigError { message: error.to_string() }
    }

    /// The index could not be opened.
    pub fn text_index_error(error: TextIndexError) -> (result: ApplicationError)
        ensures
            result@ == (ApplicationErrorView::TextIndexError { message: error@.message }),
    {
        ApplicationError::TextIndexError { message: error.to_string() }
    }

    /// The worker could not be started.
    pub fn worker_error(error: WorkerError) -> (result: ApplicationError)
        ensures
            result@ == (ApplicationErrorView::WorkerError { message: error@.message }),
    {
        ApplicationError::WorkerError { message: error.to_string() }
    }

    /// The server could not be started; `error` is what it says. It is
    /// reported as an error of the worker.
    pub fn server_error(error: &str) -> (result: ApplicationError)
        ensures
            result@ == (ApplicationErrorView::WorkerError { message: error@ }),
    {
        ApplicationError::WorkerError { message: error.to_owned() }
    }

    /// The message.
    pub fn to_string(&self) -> (message: String)
        ensures
            message@ == match self@ {
                ApplicationErrorView::ConfigError { message } => message,
                ApplicationErrorView::TextIndexError { message } => message,
                ApplicationErrorView::WorkerError { message } => message,
            },
    {
        match self {
            ApplicationError::ConfigError { message } => message.clone(),
            ApplicationError::TextIndexError { message } => message.clone(),
            ApplicationError::WorkerError { message } => message.clone(),
        }
    }
}

} // verus!
