//! The failures that resolving and launching an editor can report.
use vstd::prelude::*;

verus! {

/// How an editor process that did not succeed came to an end.
#[derive(Clone, Copy, Debug, PartialEq, Eq)]
pub enum ExitReport {
    /// The process exited with this non-zero code.
    Code(i32),
    /// No exit code is available: the process was terminated by a signal.
    TerminatedBySignal,
}

/// Every way that resolving or launching an editor can fail.
#[derive(Clone, Debug, PartialEq, Eq)]
pub enum ConfigError {
    /// No environment value, no configured value, and no well-known editor
    /// could be started.
    NoEditorFound,
    /// The editor command string could not be split into words.
    InvalidCommandSyntax { command: String, reason: String },
    /// The editor command string holds no words at all.
    EmptyEditorCommand,
    /// The directory that should hold the target file could not be created.
    ConfigDirCreationFailed { path: String, reason: String },
    /// The editor program could not be started.
    EditorLaunchFailed { program: String, reason: String },
    /// The editor ran but did not finish successfully.
    EditorExitedWithError(ExitReport),
}

/// Turns the exit code of a finished editor process into the outcome of the
/// whole operation: `Some(0)` is success, any other code is reported as it
/// is, and a missing code means that a signal ended the process.
pub fn exit_outcome(code: Option<i32>) -> (r: Result<(), ConfigError>)
    ensures
        code == Some(0i32) <==> r is Ok,
        code is Some && code->0 != 0 ==> r == Err::<(), ConfigError>(
            ConfigError::EditorExitedWithError(ExitReport::Code(code->0)),
        ),
        code is None ==> r == Err::<(), ConfigError>(
            ConfigError::EditorExitedWithError(ExitReport::TerminatedBySignal),
        ),
{
    match code {
        Some(0) => Ok(()),
        Some(c) => Err(ConfigError::EditorExitedWithError(ExitReport::Code(c))),
        None => Err(ConfigError::EditorExitedWithError(ExitReport::TerminatedBySignal)),
    }
}

} // verus!
