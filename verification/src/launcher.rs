//! Launching shell commands: what a finished command means for the caller.

use vstd::prelude::*;
use crate::text::{concat3, i64_to_decimal, int_decimal};

verus! {

/// Error of a launched shell command.
#[derive(Debug, Clone, PartialEq, Eq)]
pub enum LauncherError {
    /// The command could not be spawned.
    Spawn { command: String, context: String },
    /// The command ran and did not exit with status 0; `status` is its exit
    /// code, or `None` when a signal ended it.
    NonZeroExit { command: String, status: Option<i32> },
}

/// What the launcher waits for.
#[derive(Debug, Clone, Copy, PartialEq, Eq, Structural)]
pub enum CommandCapture {
    /// The exit status only.
    Status,
    /// The exit status and the output.
    Output,
}

impl LauncherError {
    /// The error of a command that could not be spawned.
    pub fn spawn_error(command: String, context: String) -> (e: Self)
        ensures
            e == (LauncherError::Spawn { command, context }),
    {
        LauncherError::Spawn { command, context }
    }

    /// The error of a command that ended with `status`.
    pub fn exit_error(command: String, status: Option<i32>) -> (e: Self)
        ensures
            e == (LauncherError::NonZeroExit { command, status }),
    {
        LauncherError::NonZeroExit { command, status }
    }
}

/// What a finished command means: success when it exited with status 0, a
/// [`LauncherError::NonZeroExit`] otherwise.
pub fn check_exit(command: String, status: Option<i32>) -> (r: Result<(), LauncherError>)
    ensures
        status == Some(0i32) ==> r is Ok,
        status != Some(0i32) ==> r == Err::<(), LauncherError>(
            LauncherError::NonZeroExit { command, status },
        ),
{
    match status {
        Some(code) => {
            if code == 0 {
                return Ok(());
            }
        },
        None => {},
    }
    Err(LauncherError::exit_error(command, status))
}

/// The description of an exit status: `exit status: <code>`, or `signal`
/// when a signal ended the command.
pub open spec fn status_text(status: Option<i32>) -> Seq<char> {
    match status {
        Some(code) => "exit status: "@ + int_decimal(code as int),
        None => "signal"@,
    }
}

impl LauncherError {
    /// The human readable description of the error.
    pub fn to_string(&self) -> (s: String)
        ensures
            s@ == match *self {
                LauncherError::Spawn { command, context } => "failed to spawn `"@ + command@
                    + "`: "@ + context@,
                LauncherError::NonZeroExit { command, status } => "command `"@ + command@
                    + "` exited with status "@ + status_text(status),
            },
    {
        match self {
            LauncherError::Spawn { command, context } => {
                let head = concat3("failed to spawn `", command.as_str(), "`: ");
                let mut s = head;
                s.append(context.as_str());
                s
            },
            LauncherError::NonZeroExit { command, status } => {
                let mut s = concat3("command `", command.as_str(), "` exited with status ");
                match status {
                    Some(code) => {
                        s.append("exit status: ");
                        let digits = i64_to_decimal(*code as i64);
                        s.append(digits.as_str());
                    },
                    None => {
                        s.append("signal");
                    },
                }
                s
            },
        }
    }
}

} // verus!
