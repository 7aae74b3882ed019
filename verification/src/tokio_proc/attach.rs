//! The protocol of an attach: find out whether the process still lives,
//! and if it does, open the controller's ends of its pipes anew.

use vstd::prelude::*;
use crate::tokio_proc::child::spec_attached;
use crate::tokio_proc::child::ChildWrapper;
use crate::tokio_proc::error::ProcError;
use crate::tokio_proc::error::ECHILD;
use crate::tokio_proc::layout::reopen_access;
use crate::tokio_proc::layout::spec_reopen_access;
use crate::tokio_proc::os::OsCall;
use crate::tokio_proc::os::NO_SIGNAL;
use crate::tokio_proc::os::OsReply;
use crate::tokio_proc::os::Platform;
use crate::tokio_proc::os::StreamKind;
use crate::tokio_proc::os::WaitMode;
use crate::tokio_proc::status::WaitStatus;

verus! {

/// Where an attach stands.
#[derive(Clone, Copy, Debug, PartialEq, Eq, Structural)]
pub enum AttachState {
    /// Asking, without suspending, whether the process still lives.
    Probe,
    /// Asking whether the process exists, after the wait was refused
    /// because the process is no child of the caller.
    Look,
    /// Opening the controller's end of this stream.
    Open(StreamKind),
    /// Done: the process lives and its streams are open.
    Attached,
    /// Done: there is no such process to attach to.
    Gone,
    /// Given up.
    Failed(ProcError),
}

/// An attach under way.
#[derive(Clone, Copy, Debug, PartialEq, Eq, Structural)]
pub struct Attach {
    pub platform: Platform,
    pub pid: i32,
    pub state: AttachState,
}

pub open spec fn spec_attach_initial(platform: Platform) -> AttachState {
    match platform {
        Platform::Posix => AttachState::Probe,
        Platform::Other => AttachState::Gone,
    }
}

pub open spec fn spec_after_open(kind: StreamKind) -> AttachState {
    match kind {
        StreamKind::Stdin => AttachState::Open(StreamKind::Stdout),
        StreamKind::Stdout => AttachState::Open(StreamKind::Stderr),
        StreamKind::Stderr => AttachState::Attached,
    }
}

/// The state that follows `state` on `reply`. A probe that reports the
/// end of the process, or that is refused, says that the process is gone:
/// that is no failure of the attach. The one refusal that says nothing of
/// the process is that of a wait for a process that is no child of the
/// caller; the attach then asks whether the process exists, and takes
/// every refusal but that for want of permission for a process that is
/// gone.
pub open spec fn spec_attach_advance(pid: i32, state: AttachState, reply: OsReply) -> AttachState {
    match state {
        AttachState::Probe => match reply {
            OsReply::Failed(_) => if reply.spec_asks_for_look(pid) {
                AttachState::Look
            } else {
                AttachState::Gone
            },
            OsReply::Waited(wait) => if wait.spec_is_terminal() {
                AttachState::Gone
            } else {
                AttachState::Open(StreamKind::Stdin)
            },
            _ => AttachState::Failed(ProcError::UnexpectedReply),
        },
        AttachState::Look => if reply.spec_says_alive() {
            AttachState::Open(StreamKind::Stdin)
        } else {
            match reply {
                OsReply::Failed(_) => AttachState::Gone,
                _ => AttachState::Failed(reply.spec_failure()),
            }
        },
        AttachState::Open(kind) => match reply {
            OsReply::Unit => spec_after_open(kind),
            _ => AttachState::Failed(reply.spec_failure()),
        },
        AttachState::Attached => AttachState::Attached,
        AttachState::Gone => AttachState::Gone,
        AttachState::Failed(error) => AttachState::Failed(error),
    }
}

pub open spec fn spec_attach_pending(pid: i32, state: AttachState) -> Option<OsCall> {
    match state {
        AttachState::Probe => Some(OsCall::WaitPid(pid, WaitMode::NoHang)),
        AttachState::Look => Some(OsCall::Signal(pid, NO_SIGNAL)),
        AttachState::Open(kind) => Some(OsCall::OpenControllerEnd(kind, spec_reopen_access(kind))),
        _ => None,
    }
}

pub open spec fn spec_attach_result(pid: i32, state: AttachState) -> Option<
    Result<Option<ChildWrapper>, ProcError>,
> {
    match state {
        AttachState::Attached => Some(Ok(Some(spec_attached(pid)))),
        AttachState::Gone => Some(Ok(None)),
        AttachState::Failed(error) => Some(Err(error)),
        _ => None,
    }
}

impl Attach {
    /// The call that the driver is to perform next; `None` when the
    /// attach is over.
    pub fn pending(&self) -> (call: Option<OsCall>)
        ensures
            call == spec_attach_pending(self.pid, self.state),
            call is None <==> spec_attach_result(self.pid, self.state) is Some,
    {
        match self.state {
            AttachState::Probe => Some(OsCall::WaitPid(self.pid, WaitMode::NoHang)),
            AttachState::Look => Some(OsCall::Signal(self.pid, NO_SIGNAL)),
            AttachState::Open(kind) => Some(OsCall::OpenControllerEnd(kind, reopen_access(kind))),
            _ => None,
        }
    }

    /// The attach after the driver's reply to the pending call. An attach
    /// that is over stays as it is.
    pub fn advance(self, reply: &OsReply) -> (next: Attach)
        ensures
            next.platform == self.platform,
            next.pid == self.pid,
            next.state == spec_attach_advance(self.pid, self.state, *reply),
    {
        let state = match self.state {
            AttachState::Probe => match reply {
                OsReply::Failed(_) => if reply.asks_for_look(self.pid) {
                    AttachState::Look
                } else {
                    AttachState::Gone
                },
                OsReply::Waited(wait) => if wait.is_terminal() {
                    AttachState::Gone
                } else {
                    AttachState::Open(StreamKind::Stdin)
                },
                _ => AttachState::Failed(ProcError::UnexpectedReply),
            },
            AttachState::Look => if reply.says_alive() {
                AttachState::Open(StreamKind::Stdin)
            } else {
                match reply {
                    OsReply::Failed(_) => AttachState::Gone,
                    _ => AttachState::Failed(reply.failure()),
                }
            },
            AttachState::Open(kind) => match reply {
                OsReply::Unit => match kind {
                    StreamKind::Stdin => AttachState::Open(StreamKind::Stdout),
                    StreamKind::Stdout => AttachState::Open(StreamKind::Stderr),
                    StreamKind::Stderr => AttachState::Attached,
                },
                _ => AttachState::Failed(reply.failure()),
            },
            AttachState::Attached => AttachState::Attached,
            AttachState::Gone => AttachState::Gone,
            AttachState::Failed(error) => AttachState::Failed(error),
        };
        Attach { platform: self.platform, pid: self.pid, state }
    }

    /// What the attach has come to: the wrapper of the process, `None`
    /// in its place where the process is gone, or the failure; `None`
    /// while a call is pending.
    pub fn result(&self) -> (r: Option<Result<Option<ChildWrapper>, ProcError>>)
        ensures
            r == spec_attach_result(self.pid, self.state),
    {
        match self.state {
            AttachState::Attached => Some(Ok(Some(ChildWrapper::attached(self.pid)))),
            AttachState::Gone => Some(Ok(None)),
            AttachState::Failed(error) => Some(Err(error)),
            _ => None,
        }
    }
}

impl ChildWrapper {
    /// Starts the attach to the process with this id, whose pipes are in
    /// the working directory. Where the platform has no named pipes there
    /// is nothing to attach to.
    pub fn attach(platform: Platform, pid: i32) -> (attach: Attach)
        ensures
            attach.platform == platform,
            attach.pid == pid,
            attach.state == spec_attach_initial(platform),
    {
        let state = match platform {
            Platform::Posix => AttachState::Probe,
            Platform::Other => AttachState::Gone,
        };
        Attach { platform, pid, state }
    }
}

/// An attach to a process that has ended finds nothing, and fails never.
/// Where the probe reports the end, or is refused in a way that tells of
/// the process, the attach is over at once with `None` in place of a
/// wrapper. Where the probe is refused because the process is no child of
/// the caller, the attach asks whether the process exists, and on the
/// answer that it does not the attach is over in the same way. Neither
/// call suspends the caller.
pub proof fn lemma_attach_to_ended(pid: i32, reply: OsReply, looked: OsReply)
    requires
        reply is Failed || (reply matches OsReply::Waited(wait) && wait.spec_is_terminal()),
        looked is Failed,
        !looked.spec_says_alive(),
    ensures
        ({
            let s1 = spec_attach_advance(pid, spec_attach_initial(Platform::Posix), reply);
            let s2 = spec_attach_advance(pid, s1, looked);
            let gone = Some(Ok::<Option<ChildWrapper>, ProcError>(None));
            &&& spec_attach_pending(pid, spec_attach_initial(Platform::Posix)) == Some(
                OsCall::WaitPid(pid, WaitMode::NoHang),
            )
            &&& !OsCall::WaitPid(pid, WaitMode::NoHang).spec_may_block()
            &&& !reply.spec_asks_for_look(pid) ==> spec_attach_result(pid, s1) == gone
            &&& reply.spec_asks_for_look(pid) ==> {
                &&& spec_attach_pending(pid, s1) == Some(OsCall::Signal(pid, NO_SIGNAL))
                &&& !OsCall::Signal(pid, NO_SIGNAL).spec_may_block()
                &&& spec_attach_result(pid, s2) == gone
            }
        }),
{
}

/// An attach to a process that lives opens the three streams in turn and
/// ends with the wrapper of the process, all of its streams present. The
/// process is found to live by a wait that tells of no end, or, where it
/// is no child of the caller, by the answer that it exists.
pub proof fn lemma_attach_to_living(pid: i32, wait: WaitStatus, looked: OsReply)
    requires
        !wait.spec_is_terminal(),
        looked.spec_says_alive(),
    ensures
        ({
            let s1 = spec_attach_advance(pid, AttachState::Probe, OsReply::Waited(wait));
            let s2 = spec_attach_advance(pid, s1, OsReply::Unit);
            let s3 = spec_attach_advance(pid, s2, OsReply::Unit);
            let s4 = spec_attach_advance(pid, s3, OsReply::Unit);
            &&& spec_attach_pending(pid, s1) == Some(
                OsCall::OpenControllerEnd(StreamKind::Stdin, spec_reopen_access(StreamKind::Stdin)),
            )
            &&& spec_attach_pending(pid, s2) == Some(
                OsCall::OpenControllerEnd(
                    StreamKind::Stdout,
                    spec_reopen_access(StreamKind::Stdout),
                ),
            )
            &&& spec_attach_pending(pid, s3) == Some(
                OsCall::OpenControllerEnd(
                    StreamKind::Stderr,
                    spec_reopen_access(StreamKind::Stderr),
                ),
            )
            &&& spec_attach_result(pid, s4) == Some(
                Ok::<Option<ChildWrapper>, ProcError>(Some(spec_attached(pid))),
            )
            &&& pid > 0 ==> spec_attach_advance(
                pid,
                spec_attach_advance(pid, AttachState::Probe, OsReply::Failed(ECHILD)),
                looked,
            ) == s1
        }),
{
}

} // verus!
