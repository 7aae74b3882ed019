//! The failures that the supervision protocols report.

use vstd::prelude::*;

verus! {

/// Why a supervision protocol gave up.
#[derive(Clone, Copy, Debug, PartialEq, Eq, Structural)]
pub enum ProcError {
    /// A call to the operating system failed with this error number: a
    /// file or pipe could not be made or opened, a process could not be
    /// created, waited for or signalled.
    Os(i32),
    /// Daemonization was asked for in a program that did not run the fork
    /// hook at its start.
    HookNotInstalled,
    /// The file that records the held process is missing or does not hold
    /// a process id.
    PidFileUnreadable,
    /// The execution context that ran a blocking wait did not hand its
    /// result back.
    WaitAbandoned,
    /// The reply does not answer the call that was pending.
    UnexpectedReply,
}

/// The error number for a broken pipe, reported for an unreadable pid
/// file.
pub const EPIPE: i32 = 32;

/// The error number with which a call is refused for want of permission.
pub const EPERM: i32 = 1;

/// The error number with which a call is refused because there is no
/// such process.
pub const ESRCH: i32 = 3;

/// The error number with which a wait is refused because the process is
/// no child of the caller.
pub const ECHILD: i32 = 10;

impl ProcError {
    pub open spec fn spec_is_unsupported(self) -> bool {
        self == ProcError::HookNotInstalled
    }

    /// Whether the failure says that the program cannot daemonize as it
    /// stands, rather than that the operating system refused something.
    pub fn is_unsupported(&self) -> (r: bool)
        ensures
            r == self.spec_is_unsupported(),
    {
        match self {
            ProcError::HookNotInstalled => true,
            _ => false,
        }
    }

    pub open spec fn spec_os_code(self) -> Option<i32> {
        match self {
            ProcError::Os(code) => Some(code),
            ProcError::PidFileUnreadable => Some(EPIPE),
            _ => None,
        }
    }

    /// The error number of the operating system that stands for the
    /// failure, where there is one.
    pub fn os_code(&self) -> (r: Option<i32>)
        ensures
            r == self.spec_os_code(),
    {
        match self {
            ProcError::Os(code) => Some(*code),
            ProcError::PidFileUnreadable => Some(EPIPE),
            _ => None,
        }
    }

    /// What to tell the user about the failure.
    pub fn message(&self) -> (text: &'static str)
        ensures
            text@ == spec_message(*self),
    {
        match self {
            ProcError::Os(_) => "the operating system refused a call",
            ProcError::HookNotInstalled => {
                "put `ProcessHandle::fork_hook` at earliest call in `main()` to use this feature"
            },
            ProcError::PidFileUnreadable => "the pid file is missing or holds no process id",
            ProcError::WaitAbandoned => "the blocking wait was abandoned",
            ProcError::UnexpectedReply => "the reply does not answer the pending call",
        }
    }
}

pub open spec fn spec_message(error: ProcError) -> Seq<char> {
    match error {
        ProcError::Os(_) => "the operating system refused a call"@,
        ProcError::HookNotInstalled => {
            "put `ProcessHandle::fork_hook` at earliest call in `main()` to use this feature"@
        },
        ProcError::PidFileUnreadable => "the pid file is missing or holds no process id"@,
        ProcError::WaitAbandoned => "the blocking wait was abandoned"@,
        ProcError::UnexpectedReply => "the reply does not answer the pending call"@,
    }
}

} // verus!
