//! What a controller does with a held process: wait for it, look whether
//! it has ended, ask it to end, or both end it and wait.

use vstd::prelude::*;
use crate::tokio_proc::child::ChildHandle;
use crate::tokio_proc::child::ChildWrapper;
use crate::tokio_proc::error::ProcError;
use crate::tokio_proc::error::ECHILD;
use crate::tokio_proc::os::OsCall;
use crate::tokio_proc::os::NO_SIGNAL;
use crate::tokio_proc::os::OsReply;
use crate::tokio_proc::os::WaitMode;
use crate::tokio_proc::status::parent_status;
use crate::tokio_proc::status::spec_wait_to_exit;
use crate::tokio_proc::status::wait_to_exit;
use crate::tokio_proc::status::ExitStatus;
use crate::tokio_proc::status::WaitStatus;
use crate::tokio_proc::status::SIGKILL;

verus! {

/// What is asked of the process.
#[derive(Clone, Copy, Debug, PartialEq, Eq, Structural)]
pub enum Request {
    /// Suspend until the process has ended.
    Wait,
    /// Say at once whether the process has ended.
    TryWait,
    /// Ask for the end of the process, and do not wait for it.
    StartKill,
    /// Ask for the end of the process, then wait for it.
    Kill,
}

/// Where an operation stands.
#[derive(Clone, Copy, Debug, PartialEq, Eq, Structural)]
pub enum OperationState {
    /// Asking for the end of the process.
    Killing,
    /// Suspended until the process has ended.
    Waiting,
    /// Looking whether the process has ended.
    Polling,
    /// Asking whether the process exists, after the look was refused
    /// because the process is no child of the caller.
    Looking,
    /// Over. The status is there where the process is known to have
    /// ended.
    Done(Option<ExitStatus>),
    /// Given up.
    Failed(ProcError),
}

/// An operation under way.
#[derive(Clone, Copy, Debug, PartialEq, Eq, Structural)]
pub struct Operation {
    pub handle: ChildHandle,
    pub request: Request,
    pub state: OperationState,
}

pub open spec fn spec_operation_initial(request: Request) -> OperationState {
    match request {
        Request::Wait => OperationState::Waiting,
        Request::TryWait => OperationState::Polling,
        Request::StartKill => OperationState::Killing,
        Request::Kill => OperationState::Killing,
    }
}

/// The call whose reply `state` awaits. An owned process is reached
/// through its handle. A process that is known by its id is waited for
/// by that id, and is sent the signal that ends it at once, for the
/// controller is not its parent; the number zero in the place of the
/// signal only asks whether the process exists.
pub open spec fn spec_operation_pending(handle: ChildHandle, state: OperationState) -> Option<
    OsCall,
> {
    match state {
        OperationState::Killing => match handle {
            ChildHandle::Owned(_) => Some(OsCall::KillOwned),
            ChildHandle::Attached(pid) => Some(OsCall::Signal(pid, SIGKILL)),
        },
        OperationState::Waiting => match handle {
            ChildHandle::Owned(_) => Some(OsCall::WaitOwned),
            ChildHandle::Attached(pid) => Some(OsCall::WaitPid(pid, WaitMode::Blocking)),
        },
        OperationState::Polling => match handle {
            ChildHandle::Owned(_) => Some(OsCall::TryWaitOwned),
            ChildHandle::Attached(pid) => Some(OsCall::WaitPid(pid, WaitMode::NoHang)),
        },
        OperationState::Looking => match handle {
            ChildHandle::Owned(_) => Some(OsCall::TryWaitOwned),
            ChildHandle::Attached(pid) => Some(OsCall::Signal(pid, NO_SIGNAL)),
        },
        OperationState::Done(_) => None,
        OperationState::Failed(_) => None,
    }
}

/// What a look at the process by its id has found: the status of the
/// outcome if the process has ended, and nothing yet for every other
/// outcome, for then the process still runs.
pub open spec fn spec_polled(wait: WaitStatus) -> Option<ExitStatus> {
    if wait.spec_is_terminal() {
        Some(spec_wait_to_exit(wait))
    } else {
        None
    }
}

/// The state that follows `state` on `reply`. A look at a process that is
/// no child of the caller is refused by the system; the operation then
/// asks whether the process exists. While it does, it has not ended; when
/// it does not, its status is not to be had, and the refusal is the
/// failure of the look.
pub open spec fn spec_operation_advance(
    handle: ChildHandle,
    request: Request,
    state: OperationState,
    reply: OsReply,
) -> OperationState {
    match state {
        OperationState::Killing => match reply {
            OsReply::Unit => if request == Request::Kill {
                OperationState::Waiting
            } else {
                OperationState::Done(None)
            },
            _ => OperationState::Failed(reply.spec_failure()),
        },
        OperationState::Waiting => match (handle, reply) {
            (ChildHandle::Owned(_), OsReply::Status(status)) => OperationState::Done(Some(status)),
            (ChildHandle::Attached(_), OsReply::Waited(wait)) => OperationState::Done(
                Some(spec_wait_to_exit(wait)),
            ),
            _ => OperationState::Failed(reply.spec_failure()),
        },
        OperationState::Polling => match (handle, reply) {
            (ChildHandle::Owned(_), OsReply::Status(status)) => OperationState::Done(Some(status)),
            (ChildHandle::Owned(_), OsReply::Running) => OperationState::Done(None),
            (ChildHandle::Attached(_), OsReply::Waited(wait)) => OperationState::Done(
                spec_polled(wait),
            ),
            (ChildHandle::Attached(pid), OsReply::Failed(_)) => if reply.spec_asks_for_look(pid) {
                OperationState::Looking
            } else {
                OperationState::Failed(reply.spec_failure())
            },
            _ => OperationState::Failed(reply.spec_failure()),
        },
        OperationState::Looking => if reply.spec_says_alive() {
            OperationState::Done(None)
        } else {
            OperationState::Failed(reply.spec_failure())
        },
        OperationState::Done(status) => OperationState::Done(status),
        OperationState::Failed(error) => OperationState::Failed(error),
    }
}

pub open spec fn spec_operation_result(state: OperationState) -> Option<
    Result<Option<ExitStatus>, ProcError>,
> {
    match state {
        OperationState::Done(status) => Some(Ok(status)),
        OperationState::Failed(error) => Some(Err(error)),
        _ => None,
    }
}

impl Operation {
    /// An operation at its start.
    pub fn new(handle: ChildHandle, request: Request) -> (operation: Operation)
        ensures
            operation.handle == handle,
            operation.request == request,
            operation.state == spec_operation_initial(request),
    {
        let state = match request {
            Request::Wait => OperationState::Waiting,
            Request::TryWait => OperationState::Polling,
            Request::StartKill => OperationState::Killing,
            Request::Kill => OperationState::Killing,
        };
        Operation { handle, request, state }
    }

    /// The call that the driver is to perform next; `None` when the
    /// operation is over.
    pub fn pending(&self) -> (call: Option<OsCall>)
        ensures
            call == spec_operation_pending(self.handle, self.state),
            call is None <==> spec_operation_result(self.state) is Some,
    {
        match self.state {
            OperationState::Killing => match self.handle {
                ChildHandle::Owned(_) => Some(OsCall::KillOwned),
                ChildHandle::Attached(pid) => Some(OsCall::Signal(pid, SIGKILL)),
            },
            OperationState::Waiting => match self.handle {
                ChildHandle::Owned(_) => Some(OsCall::WaitOwned),
                ChildHandle::Attached(pid) => Some(OsCall::WaitPid(pid, WaitMode::Blocking)),
            },
            OperationState::Polling => match self.handle {
                ChildHandle::Owned(_) => Some(OsCall::TryWaitOwned),
                ChildHandle::Attached(pid) => Some(OsCall::WaitPid(pid, WaitMode::NoHang)),
            },
            OperationState::Looking => match self.handle {
                ChildHandle::Owned(_) => Some(OsCall::TryWaitOwned),
                ChildHandle::Attached(pid) => Some(OsCall::Signal(pid, NO_SIGNAL)),
            },
            OperationState::Done(_) => None,
            OperationState::Failed(_) => None,
        }
    }

    /// The operation after the driver's reply to the pending call. An
    /// operation that is over stays as it is.
    pub fn advance(self, reply: &OsReply) -> (next: Operation)
        ensures
            next.handle == self.handle,
            next.request == self.request,
            next.state == spec_operation_advance(self.handle, self.request, self.state, *reply),
    {
        let state = match self.state {
            OperationState::Killing => match reply {
                OsReply::Unit => match self.request {
                    Request::Kill => OperationState::Waiting,
                    _ => OperationState::Done(None),
                },
                _ => OperationState::Failed(reply.failure()),
            },
            OperationState::Waiting => match (self.handle, reply) {
                (ChildHandle::Owned(_), OsReply::Status(status)) => OperationState::Done(Some(*status)),
                (ChildHandle::Attached(_), OsReply::Waited(wait)) => OperationState::Done(
                    Some(wait_to_exit(*wait)),
                ),
                _ => OperationState::Failed(reply.failure()),
            },
            OperationState::Polling => match (self.handle, reply) {
                (ChildHandle::Owned(_), OsReply::Status(status)) => OperationState::Done(Some(*status)),
                (ChildHandle::Owned(_), OsReply::Running) => OperationState::Done(None),
                (ChildHandle::Attached(_), OsReply::Waited(wait)) => {
                    if wait.is_terminal() {
                        OperationState::Done(Some(wait_to_exit(*wait)))
                    } else {
                        OperationState::Done(None)
                    }
                },
                (ChildHandle::Attached(pid), OsReply::Failed(_)) => {
                    if reply.asks_for_look(pid) {
                        OperationState::Looking
                    } else {
                        OperationState::Failed(reply.failure())
                    }
                },
                _ => OperationState::Failed(reply.failure()),
            },
            OperationState::Looking => if reply.says_alive() {
                OperationState::Done(None)
            } else {
                OperationState::Failed(reply.failure())
            },
            OperationState::Done(status) => OperationState::Done(status),
            OperationState::Failed(error) => OperationState::Failed(error),
        };
        Operation { handle: self.handle, request: self.request, state }
    }

    /// What the operation has come to; `None` while a call is pending.
    /// The status is there after a wait and a kill, after a look that
    /// found the process ended, and never after a mere request to end.
    pub fn result(&self) -> (r: Option<Result<Option<ExitStatus>, ProcError>>)
        ensures
            r == spec_operation_result(self.state),
    {
        match self.state {
            OperationState::Done(status) => Some(Ok(status)),
            OperationState::Failed(error) => Some(Err(error)),
            _ => None,
        }
    }
}

impl ChildWrapper {
    /// Starts a wait for the end of the process.
    pub fn wait(&self) -> (operation: Operation)
        ensures
            operation.handle == self.handle,
            operation.request == Request::Wait,
            operation.state == OperationState::Waiting,
    {
        Operation::new(self.handle, Request::Wait)
    }

    /// Starts a look at the process that does not suspend the caller.
    pub fn try_wait(&self) -> (operation: Operation)
        ensures
            operation.handle == self.handle,
            operation.request == Request::TryWait,
            operation.state == OperationState::Polling,
    {
        Operation::new(self.handle, Request::TryWait)
    }

    /// Starts a request for the end of the process.
    pub fn start_kill(&self) -> (operation: Operation)
        ensures
            operation.handle == self.handle,
            operation.request == Request::StartKill,
            operation.state == OperationState::Killing,
    {
        Operation::new(self.handle, Request::StartKill)
    }

    /// Starts a request for the end of the process that then waits for
    /// it. The two steps are apart: a failure of the wait after the
    /// request went through says that the outcome is not known.
    pub fn kill(&self) -> (operation: Operation)
        ensures
            operation.handle == self.handle,
            operation.request == Request::Kill,
            operation.state == OperationState::Killing,
    {
        Operation::new(self.handle, Request::Kill)
    }
}

/// A wait is one call, and it suspends the caller until the process ends:
/// the owned process is waited for through its handle, a process that is
/// known by its id by one blocking wait for that id; whatever the reply,
/// the wait is over after it.
pub proof fn lemma_wait_is_one_call(handle: ChildHandle, reply: OsReply)
    ensures
        spec_operation_pending(handle, spec_operation_initial(Request::Wait)) matches Some(call)
            && call.spec_may_block() && (handle matches ChildHandle::Attached(pid) ==> call
            == OsCall::WaitPid(pid, WaitMode::Blocking)) && (handle is Owned ==> call
            == OsCall::WaitOwned),
        spec_operation_result(
            spec_operation_advance(
                handle,
                Request::Wait,
                spec_operation_initial(Request::Wait),
                reply,
            ),
        ) is Some,
{
}

/// A look at a process that still runs says so at once: the call of the
/// look never suspends the caller, and on a reply that does not tell of
/// the end of the process the operation is over, without a status and
/// without a failure.
pub proof fn lemma_try_wait_on_running(handle: ChildHandle, wait: WaitStatus)
    requires
        !wait.spec_is_terminal(),
    ensures
        spec_operation_pending(handle, spec_operation_initial(Request::TryWait)) matches Some(call)
            && !call.spec_may_block(),
        handle is Owned ==> spec_operation_advance(
            handle,
            Request::TryWait,
            OperationState::Polling,
            OsReply::Running,
        ) == OperationState::Done(None),
        handle is Attached ==> spec_operation_advance(
            handle,
            Request::TryWait,
            OperationState::Polling,
            OsReply::Waited(wait),
        ) == OperationState::Done(None),
{
}

/// A look at a living process that is no child of the caller says "not yet
/// exited" too: the refused wait is followed by the question whether the
/// process exists, which suspends nobody, and on the answer that it does
/// the operation is over without a status and without a failure.
pub proof fn lemma_try_wait_on_running_stranger(pid: i32, looked: OsReply)
    requires
        pid > 0,
        looked.spec_says_alive(),
    ensures
        ({
            let handle = ChildHandle::Attached(pid);
            let s1 = spec_operation_advance(
                handle,
                Request::TryWait,
                OperationState::Polling,
                OsReply::Failed(ECHILD),
            );
            &&& s1 == OperationState::Looking
            &&& spec_operation_pending(handle, s1) == Some(OsCall::Signal(pid, NO_SIGNAL))
            &&& !OsCall::Signal(pid, NO_SIGNAL).spec_may_block()
            &&& spec_operation_advance(handle, Request::TryWait, s1, looked)
                == OperationState::Done(None)
        }),
{
}

/// A wait on a process that is known by its id gives the status that the
/// owner of the process reads from its own wait: the exit code for a
/// process that left, the signal for one that was killed.
pub proof fn lemma_attached_wait_matches_owner(pid: i32, wait: WaitStatus)
    requires
        wait.spec_is_terminal(),
        wait.spec_valid(),
    ensures
        ({
            let handle = ChildHandle::Attached(pid);
            let done = spec_operation_advance(
                handle,
                Request::Wait,
                spec_operation_initial(Request::Wait),
                OsReply::Waited(wait),
            );
            &&& done matches OperationState::Done(Some(status))
            &&& status.raw == parent_status(wait)
            &&& wait matches WaitStatus::Exited(_, code) ==> status.spec_code() == Some(code)
                && status.spec_signal() is None && status.spec_success() == (code == 0)
            &&& wait matches WaitStatus::Signaled(_, signal, _) ==> status.spec_signal() == Some(
                signal,
            ) && status.spec_code() is None && !status.spec_success()
        }),
{
}

/// A kill of a process that is known by its id sends it the signal that
/// ends it at once and then waits for it by its id. When that wait
/// reports the death by that signal, the kill gives a status that is no
/// success and that names the signal.
pub proof fn lemma_kill_reports_signal(pid: i32, core_dumped: bool)
    ensures
        ({
            let handle = ChildHandle::Attached(pid);
            let wait = WaitStatus::Signaled(pid, SIGKILL, core_dumped);
            let s0 = spec_operation_initial(Request::Kill);
            let s1 = spec_operation_advance(handle, Request::Kill, s0, OsReply::Unit);
            let s2 = spec_operation_advance(handle, Request::Kill, s1, OsReply::Waited(wait));
            &&& spec_operation_pending(handle, s0) == Some(OsCall::Signal(pid, SIGKILL))
            &&& spec_operation_pending(handle, s1) == Some(
                OsCall::WaitPid(pid, WaitMode::Blocking),
            )
            &&& s2 matches OperationState::Done(Some(status))
            &&& !status.spec_success()
            &&& status.spec_signal() == Some(SIGKILL)
        }),
{
}

/// A kill whose request is refused does not wait: it is over with the
/// failure of the request.
pub proof fn lemma_kill_stops_at_refusal(handle: ChildHandle, code: i32)
    ensures
        spec_operation_advance(
            handle,
            Request::Kill,
            spec_operation_initial(Request::Kill),
            OsReply::Failed(code),
        ) == OperationState::Failed(ProcError::Os(code)),
{
}

/// A kill of an owned process asks its handle for the end and then for
/// the wait, and hands on the status that the wait reports. Where that
/// status reads as a death by signal, the kill gives a status that is no
/// success and no exit.
pub proof fn lemma_kill_of_owned_hands_on_status(pid: u32, status: ExitStatus)
    ensures
        ({
            let handle = ChildHandle::Owned(pid);
            let s0 = spec_operation_initial(Request::Kill);
            let s1 = spec_operation_advance(handle, Request::Kill, s0, OsReply::Unit);
            let s2 = spec_operation_advance(handle, Request::Kill, s1, OsReply::Status(status));
            &&& spec_operation_pending(handle, s0) == Some(OsCall::KillOwned)
            &&& spec_operation_pending(handle, s1) == Some(OsCall::WaitOwned)
            &&& s2 == OperationState::Done(Some(status))
            &&& status.spec_signal() is Some ==> !status.spec_success() && status.spec_code()
                is None
        }),
{
}

} // verus!
