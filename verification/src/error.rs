//! The error taxonomy of the command layer: a process that could not be
//! started (or produced undecodable output), and a process that ran but
//! reported failure.

use vstd::prelude::*;

verus! {

/// Failure of one command-line invocation.
#[derive(Debug, Clone, PartialEq)]
pub enum AppError {
    /// The process could not be started, or its output was not valid text.
    ExecutionFailed(String),
    /// The process ran but reported a non-success status or unexpected
    /// diagnostic text; carries the exit code and the captured stderr.
    CommandFailed(i32, String),
}

impl AppError {
    /// A human-readable description of the failure.
    pub fn message(&self) -> (r: String)
        ensures
            r@ == self.message_spec(),
    {
        match self {
            AppError::ExecutionFailed(msg) => {
                String::from_str("CLI execution failed: ").concat(msg.as_str())
            },
            AppError::CommandFailed(_code, stderr) => {
                String::from_str("CLI command failed: ").concat(stderr.as_str())
            },
        }
    }

    /// What `message` returns, as a sequence of characters.
    pub open spec fn message_spec(&self) -> Seq<char> {
        match self {
            AppError::ExecutionFailed(msg) => "CLI execution failed: "@ + msg@,
            AppError::CommandFailed(_code, stderr) => "CLI command failed: "@ + stderr@,
        }
    }
}

} // verus!
