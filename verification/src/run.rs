use vstd::prelude::*;

verus! {

/// The exit status of a finished subprocess: its exit code, or `None` when
/// the process was terminated without one (for example by a signal).
#[derive(Debug, Clone, Copy, PartialEq, Eq)]
pub struct ExitStatus {
    pub code: Option<i32>,
}

impl ExitStatus {
    /// A status counts as success exactly when the exit code is zero.
    pub fn success(&self) -> (r: bool)
        ensures
            r == (self.code == Some(0i32)),
    {
        match self.code {
            Some(c) => c == 0,
            None => false,
        }
    }
}

/// Everything captured from one finished subprocess invocation.
#[derive(Debug, Clone, PartialEq, Eq)]
pub struct CmdOutput {
    pub status: ExitStatus,
    pub stdout: Vec<u8>,
    pub stderr: Vec<u8>,
}

} // verus!
