//! The shape of an external command's result, and the error wrapper shared
//! by every host-tool invocation of the agent.

use vstd::prelude::*;

verus! {

/// What running an external command yields: its exit code and what it
/// wrote, as the outside runner hands it back.
pub struct CmdOutput {
    /// `None` when the process was ended by a signal.
    pub code: Option<i32>,
    pub stdout: Vec<u8>,
    pub stderr: Vec<u8>,
}

impl CmdOutput {
    /// An exit is a success exactly when the code is zero.
    pub fn success(&self) -> (r: bool)
        ensures
            r == (self.code == Some(0i32)),
    {
        match self.code {
            Some(0i32) => true,
            _ => false,
        }
    }
}

/// Names the host tool a command error belongs to.
pub trait HasCommandError {
    fn title() -> String;
}

/// Failure of one external command: it could not run, or it exited badly.
pub enum CommandError<T> {
    /// The command could not be run; the runner's error message.
    RunError(String),
    /// The command exited with a bad code; its output and the command
    /// line, kept for reporting.
    Exit(CmdOutput, String),
    OtherError(T),
}

} // verus!
