//! The failure taxonomy of the pipeline. No failure is retried: each one
//! aborts the remaining stages and is reported once at the top level.

use vstd::prelude::*;

use crate::status::TerminationStatus;

verus! {

/// Termination status and captured stderr of a command that ran but ended
/// unsuccessfully.
#[derive(Debug)]
pub struct CommandErrorCapture {
    /// Termination status returned from the command.
    pub exit_status: TerminationStatus,
    /// Stderr text captured from the command.
    pub err_msg: String,
}

impl CommandErrorCapture {
    /// Creates a new termination status and stderr message grouping.
    pub fn new(exit_status: TerminationStatus, err_msg: String) -> (capture: CommandErrorCapture)
        ensures
            capture.exit_status == exit_status,
            capture.err_msg == err_msg,
    {
        CommandErrorCapture { exit_status, err_msg }
    }
}

/// Application error type. Each variant that wraps an outside failure
/// carries that failure's message text.
#[derive(Debug)]
pub enum Error {
    /// The child process could not be started.
    Command(String),
    /// The child process ran but returned an unsuccessful status.
    CommandError(CommandErrorCapture),
    /// The ignore file exists but could not be read.
    Io(String),
    /// The listing output could not be parsed into resource names.
    ParseString(String),
    /// The explicitly given command path is not an executable file.
    NotExecutable,
    /// The ignore file's contents are not a valid rule file.
    TomlDe(String),
    /// The command could not be located on the search path.
    Which(String),
}

} // verus!
