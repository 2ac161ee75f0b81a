//! The checks on a configuration before it is used.

use super::Config;
use super::ConfigError;
use super::ConfigResult;
use vstd::prelude::*;
use vstd::string::StringExecFns;

verus! {

/// What the file system says of a path.
#[derive(Debug, Clone, Copy, PartialEq, Eq, Structural)]
pub struct PathStatus {
    pub exists: bool,
    pub is_dir: bool,
    pub is_file: bool,
}

/// The complaint about a number that is zero.
pub open spec fn number_complaint(name: Seq<char>) -> Seq<char> {
    "Numbers of "@ + name + " must be greater than zero, but 0 given"@
}

/// The complaint about a directory, if there is one.
pub open spec fn dir_complaint(status: PathStatus, path: Seq<char>, name: Seq<char>) -> Option<
    Seq<char>,
> {
    if !status.exists {
        Some("File "@ + name + " ("@ + path + ") is not exists"@)
    } else if !status.is_dir {
        Some("File "@ + name + " ("@ + path + ") is not a directory"@)
    } else {
        None
    }
}

/// The complaint about a file, if there is one. A file that does not exist
/// yet is in order.
pub open spec fn file_complaint(status: PathStatus, path: Seq<char>, name: Seq<char>) -> Option<
    Seq<char>,
> {
    if status.exists && !status.is_file {
        Some(name + " directory ("@ + path + ") is not a file"@)
    } else {
        None
    }
}

/// The first complaint about a configuration: the interval, then the index
/// directory, then the checkpoint file.
pub open spec fn complaint(
    interval: u64,
    index_path: Seq<char>,
    index_status: PathStatus,
    state_file: Seq<char>,
    state_status: PathStatus,
) -> Option<Seq<char>> {
    if interval == 0 {
        Some(number_complaint("interval"@))
    } else if dir_complaint(index_status, index_path, "index path"@) is Some {
        dir_complaint(index_status, index_path, "index path"@)
    } else {
        file_complaint(state_status, state_file, "state file"@)
    }
}

/// What a check gives, as a mathematical value: the complaint, if any.
pub open spec fn complaint_of(result: ConfigResult<()>) -> Option<Seq<char>> {
    match result {
        Ok(_) => None,
        Err(error) => Some(error@),
    }
}

/// Checks a configuration against what the file system says of its two
/// paths. The poll interval must be positive, the index path an existing
/// directory, and the checkpoint path a file where it exists.
pub fn validate(config: &Config, index_path: PathStatus, state_file: PathStatus) -> (result:
    ConfigResult<()>)
    ensures
        complaint_of(result) == complaint(
            config@.interval,
            config@.index_path,
            index_path,
            config@.state_file,
            state_file,
        ),
{
    match validate_number(config.interval(), "interval") {
        Ok(_) => {},
        Err(error) => {
            return Err(error);
        },
    }
    match validate_dir(index_path, config.index_path(), "index path") {
        Ok(_) => {},
        Err(error) => {
            return Err(error);
        },
    }
    validate_file(state_file, config.state_file(), "state file")
}

/// A number that must be positive.
pub fn validate_number(value: u64, name: &str) -> (result: ConfigResult<()>)
    ensures
        complaint_of(result) == if value > 0 {
            None
        } else {
            Some(number_complaint(name@))
        },
{
    if value > 0 {
        Ok(())
    } else {
        let mut message = String::from_str("Numbers of ");
        message.append(name);
        message.append(" must be greater than zero, but 0 given");
        Err(ConfigError::new(message.as_str()))
    }
}

/// A path that must be an existing directory.
pub fn validate_dir(status: PathStatus, path: &str, name: &str) -> (result: ConfigResult<()>)
    ensures
        complaint_of(result) == dir_complaint(status, path@, name@),
{
    if !status.exists {
        let mut message = String::from_str("File ");
        message.append(name);
        message.append(" (");
        message.append(path);
        message.append(") is not exists");
        Err(ConfigError::new(message.as_str()))
    } else if !status.is_dir {
        let mut message = String::from_str("File ");
        message.append(name);
        message.append(" (");
        message.append(path);
        message.append(") is not a directory");
        Err(ConfigError::new(message.as_str()))
    } else {
        Ok(())
    }
}

/// A path that must be a file if it exists.
pub fn validate_file(status: PathStatus, path: &str, name: &str) -> (result: ConfigResult<()>)
    ensures
        complaint_of(result) == file_complaint(status, path@, name@),
{
    if status.exists && !status.is_file {
        let mut message = String::from_str(name);
        message.append(" directory (");
        message.append(path);
        message.append(") is not a file");
        Err(ConfigError::new(message.as_str()))
    } else {
        Ok(())
    }
}

} // verus!
