//! The error of a configuration.

use vstd::prelude::*;

verus! {

pub type ConfigResult<T> = Result<T, ConfigError>;

/// A configuration that cannot be used, with the reason in words.
#[derive(Debug)]
pub struct ConfigError {
    message: String,
}

impl View for ConfigError {
    type V = Seq<char>;

    /// The message.
    closed spec fn view(&self) -> Seq<char> {
        self.message@
    }
}

impl ConfigError {
    /// An error with the given message.
    pub fn new(message: &str) -> (error: ConfigError)
        ensures
            error@ == message@,
    {
        ConfigError { message: message.to_owned() }
    }

    /// The message.
    pub fn to_string(&self) -> (message: String)
        ensures
            message@ == self@,
    {
        self.message.clone()
    }
}

} // verus!
