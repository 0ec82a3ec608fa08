//! The command-line tool's logic: link metadata of native builds and the
//! checks of the C package.
pub mod native_link;
pub mod pack_c;

use vstd::prelude::*;

verus! {

/// An error of the command-line tool.
#[derive(Debug, PartialEq, Eq)]
pub enum CliError {
    /// A command or step failed; `command` says what failed and `status`
    /// is the exit code, where one is known.
    CommandFailed { command: String, status: Option<i32> },
}

/// The text of an error: what failed.
pub open spec fn error_text(e: CliError) -> Seq<char> {
    match e {
        CliError::CommandFailed { command, .. } => command@,
    }
}

impl CliError {
    /// The text of the error.
    pub fn to_string(&self) -> (res: String)
        ensures
            res@ == error_text(*self),
    {
        match self {
            CliError::CommandFailed { command, .. } => command.clone(),
        }
    }
}

} // verus!
