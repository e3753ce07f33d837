use vstd::prelude::*;
use crate::run::ExitStatus;

verus! {

/// Every way an operation of this library can fail.
#[derive(Debug, Clone, PartialEq, Eq)]
pub enum Error {
    /// The tool binary was not found on the search path.
    MissingOpCommand,
    /// No session environment variable was found.
    MissingSessionVariable,
    /// More than one session environment variable was found; carries the
    /// names of all matching variables.
    MultipleSessionVariables(Vec<String>),
    /// The item-lookup subprocess exited unsuccessfully.
    GetCommand { uuid: String, stderr: String, status: ExitStatus },
    /// The version subprocess exited with an unexpected status.
    VersionCommand { stderr: String, status: ExitStatus },
    /// Standard output of the item lookup was not valid JSON; carries the
    /// parser's message.
    JsonParse(String),
    /// The JSON was well formed but did not match the item schema.
    InvalidItem,
    /// A session environment variable was present but not valid UTF-8.
    SessionVarNotUnicode,
    /// Captured subprocess output was not valid UTF-8.
    OutputNotUtf8,
}

} // verus!
