//! The errors a caller-facing supervision operation can return. Failures
//! inside the unattended monitor loop are never raised as errors: they are
//! absorbed into status transitions and log lines instead.

use vstd::prelude::*;
use vstd::string::StringExecFns;

verus! {

/// Why a caller-invoked operation was refused.
#[derive(Debug)]
pub enum ProcError {
    /// A start was requested while the process is live.
    AlreadyRunning,
    /// The project id has no record.
    NotFound,
    /// Input was sent to a process that is not running.
    NotRunning,
    /// The OS refused to create the process; the payload is the OS message.
    LaunchError(String),
    /// A pipe write or read failed; the payload is the full message.
    IoError(String),
}

impl ProcError {
    /// The message surfaced to the caller, matching the wording the
    /// supervisor has always used.
    pub fn message(&self) -> (r: String)
        ensures
            r@ == match *self {
                ProcError::AlreadyRunning => "Project is already running"@,
                ProcError::NotFound => "Project not found"@,
                ProcError::NotRunning => "Process is not running"@,
                ProcError::LaunchError(m) => "Failed to start process: "@ + m@,
                ProcError::IoError(m) => m@,
            },
    {
        match self {
            ProcError::AlreadyRunning => String::from_str("Project is already running"),
            ProcError::NotFound => String::from_str("Project not found"),
            ProcError::NotRunning => String::from_str("Process is not running"),
            ProcError::LaunchError(m) => {
                let r = String::from_str("Failed to start process: ").concat(m.as_str());
                proof {
                    assert(r@ =~= "Failed to start process: "@ + m@);
                }
                r
            },
            ProcError::IoError(m) => m.clone(),
        }
    }
}

} // verus!
