//! Detaching a held process from the life of its controller. The program
//! starts itself anew twice: the first instance forks and makes of its
//! child the leader of a new session, which starts the second instance,
//! the guard. Both halves of the fork exit at once, so the guard is left
//! to the system's root process and nothing of the controller's process
//! tree remains. The fork happens in an instance that has started nothing
//! yet, for only the forking thread lives on in a forked child.
//!
//! The guard learns the id of the held process from the file `.pid` in the
//! working directory. No protocol here writes that file, and there is no
//! call for it: whoever asks for a process to be held records its id there
//! before the guard starts. The file `.gpid`, with the id of the guard, is
//! written by the child of the fork.

use vstd::prelude::*;
use crate::le::signed;
use crate::le::spec_signed;
use crate::tokio_proc::child::ChildWrapper;
use crate::tokio_proc::error::ProcError;
use crate::tokio_proc::error::ECHILD;
use crate::tokio_proc::layout::reopen_access;
use crate::tokio_proc::layout::spec_reopen_access;
use crate::tokio_proc::layout::POLL_SECONDS;
use crate::tokio_proc::os::Marker;
use crate::tokio_proc::os::OsCall;
use crate::tokio_proc::os::NO_SIGNAL;
use crate::tokio_proc::os::OsReply;
use crate::tokio_proc::os::Platform;
use crate::tokio_proc::os::StreamKind;
use crate::tokio_proc::os::StreamMode;
use crate::tokio_proc::os::WaitMode;
use crate::tokio_proc::pidfile::parse_pid;
use crate::tokio_proc::pidfile::spec_parse_pid;
use crate::tokio_proc::spawn::spec_advance;
use crate::tokio_proc::spawn::spec_initial;
use crate::tokio_proc::spawn::spec_result;
use crate::tokio_proc::spawn::Spawn;
use crate::tokio_proc::spawn::SpawnPlan;
use crate::tokio_proc::spawn::SpawnState;
use crate::tokio_proc::status::WaitStatus;

verus! {

/// What the program knows of its own start. Only the fork hook can
/// record that it has run.
#[derive(Clone, Copy, Debug, PartialEq, Eq, Structural)]
pub struct Lifecycle {
    hook_installed: bool,
}

/// The working directory of a held process, in the hands of its guard.
pub struct ProcessHandle {
    path: String,
}

/// What the fork hook found the running instance to be.
pub enum HookRole {
    /// An ordinary instance: the program starts up as usual.
    Normal,
    /// The instance that forks the guard off, for the held process in
    /// this working directory. It never starts up as usual.
    Fork(String),
    /// The guard of the held process in this working directory. It never
    /// starts up as usual.
    Guard(ProcessHandle),
}

impl Lifecycle {
    /// Whether the fork hook has run.
    pub closed spec fn spec_hook_installed(&self) -> bool {
        self.hook_installed
    }

    /// The lifecycle of a program that has not run the fork hook.
    pub fn new() -> (lifecycle: Lifecycle)
        ensures
            !lifecycle.spec_hook_installed(),
    {
        Lifecycle { hook_installed: false }
    }

    /// Whether the program ran the fork hook at its start.
    pub fn hook_installed(&self) -> (r: bool)
        ensures
            r == self.spec_hook_installed(),
    {
        self.hook_installed
    }
}

/// The role that the two markers give an instance. A request to fork goes
/// before the mark of the guard.
pub open spec fn spec_hook_role_is(
    platform: Platform,
    fork_request: Option<String>,
    guard: Option<String>,
    role: HookRole,
) -> bool {
    match platform {
        Platform::Other => role is Normal,
        Platform::Posix => match (fork_request, guard) {
            (Some(dir), _) => role matches HookRole::Fork(path) && path@ == dir@,
            (None, Some(dir)) => role matches HookRole::Guard(handle) && handle@ == dir@,
            (None, None) => role is Normal,
        },
    }
}

impl View for ProcessHandle {
    type V = Seq<char>;

    closed spec fn view(&self) -> Seq<char> {
        self.path@
    }
}

impl ProcessHandle {
    /// The handle for the held process in this working directory.
    pub fn new(path: String) -> (handle: ProcessHandle)
        ensures
            handle@ == path@,
    {
        ProcessHandle { path }
    }

    /// The working directory.
    pub fn path(&self) -> (path: &String)
        ensures
            path@ == self@,
    {
        &self.path
    }

    /// The hook that a program calls first of all at its start, before it
    /// starts any thread, reactor or timer. It is handed the values of
    /// the two markers in the environment, and says what the instance
    /// is. On a platform that can daemonize it records that the hook has
    /// run; elsewhere it does nothing.
    pub fn fork_hook(
        lifecycle: &mut Lifecycle,
        platform: Platform,
        fork_request: Option<String>,
        guard: Option<String>,
    ) -> (role: HookRole)
        ensures
            spec_hook_role_is(platform, fork_request, guard, role),
            final(lifecycle).spec_hook_installed() == (platform == Platform::Posix || old(
                lifecycle,
            ).spec_hook_installed()),
    {
        match platform {
            Platform::Other => HookRole::Normal,
            Platform::Posix => {
                lifecycle.hook_installed = true;
                match fork_request {
                    Some(dir) => HookRole::Fork(dir),
                    None => match guard {
                        Some(dir) => HookRole::Guard(ProcessHandle::new(dir)),
                        None => HookRole::Normal,
                    },
                }
            },
        }
    }

    /// Starts the protocol of the instance that forks the guard off.
    pub fn fork() -> (fork: Fork)
        ensures
            fork.state == ForkState::Forking,
    {
        Fork { state: ForkState::Forking }
    }

    /// Starts the protocol of the guard.
    pub fn run(&self) -> (guard: Guard)
        ensures
            guard.state == GuardState::ReadPid,
    {
        Guard { state: GuardState::ReadPid }
    }
}

impl ChildWrapper {
    /// Starts the spawn of a process that outlives the controller: as
    /// `spawn`, and then the guard is set up. Where the platform cannot
    /// daemonize this is a plain spawn.
    pub fn spawn_hold(platform: Platform, lifecycle: &Lifecycle) -> (spawn: Spawn)
        ensures
            spawn.plan == (SpawnPlan {
                platform,
                mode: StreamMode::WithStderr,
                hold: true,
                hook_installed: lifecycle.spec_hook_installed(),
            }),
            spawn.state == spec_initial(spawn.plan),
    {
        Spawn::new(
            SpawnPlan {
                platform,
                mode: StreamMode::WithStderr,
                hold: true,
                hook_installed: lifecycle.hook_installed,
            },
        )
    }

    /// As `spawn_hold`, without a pipe for the error stream.
    pub fn spawn_hold_noerr(platform: Platform, lifecycle: &Lifecycle) -> (spawn: Spawn)
        ensures
            spawn.plan == (SpawnPlan {
                platform,
                mode: StreamMode::NoStderr,
                hold: true,
                hook_installed: lifecycle.spec_hook_installed(),
            }),
            spawn.state == spec_initial(spawn.plan),
    {
        Spawn::new(
            SpawnPlan {
                platform,
                mode: StreamMode::NoStderr,
                hold: true,
                hook_installed: lifecycle.hook_installed,
            },
        )
    }
}

/// Where the forking instance stands.
#[derive(Clone, Copy, Debug, PartialEq, Eq, Structural)]
pub enum ForkState {
    /// About to fork.
    Forking,
    /// The parent of the fork, waiting for its child with this id.
    Reaping(i32),
    /// The child of the fork, about to lead a new session.
    Session,
    /// The child of the fork, about to start the guard.
    Respawn,
    /// The child of the fork, about to record the guard's id.
    Record(i32),
    /// Over: the instance exits with status zero.
    Exit,
    /// Over: the supervision cannot be set up, and the instance aborts.
    Aborted(ProcError),
}

/// The protocol of the forking instance.
#[derive(Clone, Copy, Debug, PartialEq, Eq, Structural)]
pub struct Fork {
    pub state: ForkState,
}

pub open spec fn spec_fork_pending(state: ForkState) -> Option<OsCall> {
    match state {
        ForkState::Forking => Some(OsCall::Fork),
        ForkState::Reaping(child) => Some(OsCall::WaitPid(child, WaitMode::Blocking)),
        ForkState::Session => Some(OsCall::NewSession),
        ForkState::Respawn => Some(OsCall::SpawnSelf(Marker::Guard)),
        ForkState::Record(pid) => Some(OsCall::WriteGuardFile(pid)),
        ForkState::Exit => None,
        ForkState::Aborted(_) => None,
    }
}

/// The state that follows `state` on `reply`. The parent waits for its
/// child and exits. The child leads a new session, starts the guard,
/// records its id and exits, whether the record could be written or not.
/// Anything else that goes wrong is the end of the instance.
pub open spec fn spec_fork_advance(state: ForkState, reply: OsReply) -> ForkState {
    match state {
        ForkState::Forking => match reply {
            OsReply::ForkParent(child) => ForkState::Reaping(child),
            OsReply::ForkChild => ForkState::Session,
            _ => ForkState::Aborted(reply.spec_failure()),
        },
        ForkState::Reaping(_) => match reply {
            OsReply::Waited(_) => ForkState::Exit,
            _ => ForkState::Aborted(reply.spec_failure()),
        },
        ForkState::Session => match reply {
            OsReply::Unit => ForkState::Respawn,
            _ => ForkState::Aborted(reply.spec_failure()),
        },
        ForkState::Respawn => match reply {
            OsReply::Pid(pid) => ForkState::Record(spec_signed(pid)),
            _ => ForkState::Aborted(reply.spec_failure()),
        },
        ForkState::Record(_) => ForkState::Exit,
        ForkState::Exit => ForkState::Exit,
        ForkState::Aborted(error) => ForkState::Aborted(error),
    }
}

impl Fork {
    /// The call that the driver is to perform next; `None` when the
    /// instance is to exit or abort.
    pub fn pending(&self) -> (call: Option<OsCall>)
        ensures
            call == spec_fork_pending(self.state),
            call is None <==> self.state is Exit || self.state is Aborted,
    {
        match self.state {
            ForkState::Forking => Some(OsCall::Fork),
            ForkState::Reaping(child) => Some(OsCall::WaitPid(child, WaitMode::Blocking)),
            ForkState::Session => Some(OsCall::NewSession),
            ForkState::Respawn => Some(OsCall::SpawnSelf(Marker::Guard)),
            ForkState::Record(pid) => Some(OsCall::WriteGuardFile(pid)),
            ForkState::Exit => None,
            ForkState::Aborted(_) => None,
        }
    }

    /// The protocol after the driver's reply to the pending call.
    pub fn advance(self, reply: &OsReply) -> (next: Fork)
        ensures
            next.state == spec_fork_advance(self.state, *reply),
    {
        let state = match self.state {
            ForkState::Forking => match reply {
                OsReply::ForkParent(child) => ForkState::Reaping(*child),
                OsReply::ForkChild => ForkState::Session,
                _ => ForkState::Aborted(reply.failure()),
            },
            ForkState::Reaping(_) => match reply {
                OsReply::Waited(_) => ForkState::Exit,
                _ => ForkState::Aborted(reply.failure()),
            },
            ForkState::Session => match reply {
                OsReply::Unit => ForkState::Respawn,
                _ => ForkState::Aborted(reply.failure()),
            },
            ForkState::Respawn => match reply {
                OsReply::Pid(pid) => ForkState::Record(signed(*pid)),
                _ => ForkState::Aborted(reply.failure()),
            },
            ForkState::Record(_) => ForkState::Exit,
            ForkState::Exit => ForkState::Exit,
            ForkState::Aborted(error) => ForkState::Aborted(error),
        };
        Fork { state }
    }

    /// Why the instance aborts, where it does.
    pub fn aborted(&self) -> (error: Option<ProcError>)
        ensures
            error == (match self.state {
                ForkState::Aborted(e) => Some(e),
                _ => None,
            }),
    {
        match self.state {
            ForkState::Aborted(error) => Some(error),
            _ => None,
        }
    }
}

/// Where the guard stands. The fields hold the id of the held process.
#[derive(Clone, Copy, Debug, PartialEq, Eq, Structural)]
pub enum GuardState {
    /// Reading the file that records the held process.
    ReadPid,
    /// Asking, without suspending, whether the process has ended before
    /// the guard got to it.
    Probe(i32),
    /// Opening the controller's end of this stream, so that what the
    /// process writes keeps flowing.
    Open(i32, StreamKind),
    /// Asking, without suspending, whether the process has ended.
    Poll(i32),
    /// Asking whether the process exists, after the first look was
    /// refused because the process is no child of the guard.
    ProbeLook(i32),
    /// Asking whether the process exists, after a later look was refused
    /// in that way.
    PollLook(i32),
    /// Sleeping until the next look.
    Sleep(i32),
    /// Over: the held process has ended, and the guard exits.
    Finished,
    /// Over: the guard gives up.
    Failed(ProcError),
}

/// The protocol of the guard.
#[derive(Clone, Copy, Debug, PartialEq, Eq, Structural)]
pub struct Guard {
    pub state: GuardState,
}

pub open spec fn spec_guard_pending(state: GuardState) -> Option<OsCall> {
    match state {
        GuardState::ReadPid => Some(OsCall::ReadPidFile),
        GuardState::Probe(pid) => Some(OsCall::WaitPid(pid, WaitMode::NoHang)),
        GuardState::Open(_, kind) => Some(
            OsCall::OpenControllerEnd(kind, spec_reopen_access(kind)),
        ),
        GuardState::Poll(pid) => Some(OsCall::WaitPid(pid, WaitMode::NoHang)),
        GuardState::ProbeLook(pid) => Some(OsCall::Signal(pid, NO_SIGNAL)),
        GuardState::PollLook(pid) => Some(OsCall::Signal(pid, NO_SIGNAL)),
        GuardState::Sleep(_) => Some(OsCall::Sleep(POLL_SECONDS)),
        GuardState::Finished => None,
        GuardState::Failed(_) => None,
    }
}

/// The state after a look at the held process. Only an outcome that says
/// that the process has left or was killed ends the watch; on every other
/// outcome the process still lives, stopped or running, and the guard
/// goes on. A look that is refused because the process is no child of the
/// guard says nothing of the process: the guard then asks whether the
/// process exists.
pub open spec fn spec_after_look(
    pid: i32,
    reply: OsReply,
    still_running: GuardState,
    asking: GuardState,
) -> GuardState {
    match reply {
        OsReply::Waited(wait) => if wait.spec_is_terminal() {
            GuardState::Finished
        } else {
            still_running
        },
        _ => if reply.spec_asks_for_look(pid) {
            asking
        } else {
            GuardState::Failed(reply.spec_failure())
        },
    }
}

/// The state after the question whether the held process exists. While
/// it does, the guard goes on; when there is no such process, its death
/// is confirmed and the watch ends; any other reply is a failure.
pub open spec fn spec_after_asking(reply: OsReply, still_running: GuardState) -> GuardState {
    if reply.spec_says_alive() {
        still_running
    } else if reply.spec_says_gone() {
        GuardState::Finished
    } else {
        GuardState::Failed(reply.spec_failure())
    }
}

/// The state that follows `state` on `reply`. The pipes of input and
/// output must open; that of the error stream may be missing.
pub open spec fn spec_guard_advance(state: GuardState, reply: OsReply) -> GuardState {
    match state {
        GuardState::ReadPid => match reply {
            OsReply::Text(text) => match spec_parse_pid(text@) {
                Some(pid) => GuardState::Probe(pid),
                None => GuardState::Failed(ProcError::PidFileUnreadable),
            },
            _ => GuardState::Failed(ProcError::PidFileUnreadable),
        },
        GuardState::Probe(pid) => spec_after_look(
            pid,
            reply,
            GuardState::Open(pid, StreamKind::Stdin),
            GuardState::ProbeLook(pid),
        ),
        GuardState::ProbeLook(pid) => spec_after_asking(
            reply,
            GuardState::Open(pid, StreamKind::Stdin),
        ),
        GuardState::Open(pid, StreamKind::Stdin) => match reply {
            OsReply::Unit => GuardState::Open(pid, StreamKind::Stdout),
            _ => GuardState::Failed(reply.spec_failure()),
        },
        GuardState::Open(pid, StreamKind::Stdout) => match reply {
            OsReply::Unit => GuardState::Open(pid, StreamKind::Stderr),
            _ => GuardState::Failed(reply.spec_failure()),
        },
        GuardState::Open(pid, StreamKind::Stderr) => match reply {
            OsReply::Unit => GuardState::Poll(pid),
            OsReply::Failed(_) => GuardState::Poll(pid),
            _ => GuardState::Failed(ProcError::UnexpectedReply),
        },
        GuardState::Poll(pid) => spec_after_look(
            pid,
            reply,
            GuardState::Sleep(pid),
            GuardState::PollLook(pid),
        ),
        GuardState::PollLook(pid) => spec_after_asking(reply, GuardState::Sleep(pid)),
        GuardState::Sleep(pid) => GuardState::Poll(pid),
        GuardState::Finished => GuardState::Finished,
        GuardState::Failed(error) => GuardState::Failed(error),
    }
}

pub open spec fn spec_guard_result(state: GuardState) -> Option<Result<(), ProcError>> {
    match state {
        GuardState::Finished => Some(Ok(())),
        GuardState::Failed(error) => Some(Err(error)),
        _ => None,
    }
}

fn after_look(pid: i32, reply: &OsReply, still_running: GuardState, asking: GuardState) -> (state:
    GuardState)
    ensures
        state == spec_after_look(pid, *reply, still_running, asking),
{
    match reply {
        OsReply::Waited(wait) => if wait.is_terminal() {
            GuardState::Finished
        } else {
            still_running
        },
        _ => if reply.asks_for_look(pid) {
            asking
        } else {
            GuardState::Failed(reply.failure())
        },
    }
}

fn after_asking(reply: &OsReply, still_running: GuardState) -> (state: GuardState)
    ensures
        state == spec_after_asking(*reply, still_running),
{
    if reply.says_alive() {
        still_running
    } else if reply.says_gone() {
        GuardState::Finished
    } else {
        GuardState::Failed(reply.failure())
    }
}

impl Guard {
    /// The call that the driver is to perform next; `None` when the guard
    /// is to exit.
    pub fn pending(&self) -> (call: Option<OsCall>)
        ensures
            call == spec_guard_pending(self.state),
            call is None <==> spec_guard_result(self.state) is Some,
    {
        match self.state {
            GuardState::ReadPid => Some(OsCall::ReadPidFile),
            GuardState::Probe(pid) => Some(OsCall::WaitPid(pid, WaitMode::NoHang)),
            GuardState::Open(_, kind) => Some(OsCall::OpenControllerEnd(kind, reopen_access(kind))),
            GuardState::Poll(pid) => Some(OsCall::WaitPid(pid, WaitMode::NoHang)),
            GuardState::ProbeLook(pid) => Some(OsCall::Signal(pid, NO_SIGNAL)),
            GuardState::PollLook(pid) => Some(OsCall::Signal(pid, NO_SIGNAL)),
            GuardState::Sleep(_) => Some(OsCall::Sleep(POLL_SECONDS)),
            GuardState::Finished => None,
            GuardState::Failed(_) => None,
        }
    }

    /// The guard after the driver's reply to the pending call.
    pub fn advance(self, reply: &OsReply) -> (next: Guard)
        ensures
            next.state == spec_guard_advance(self.state, *reply),
    {
        let state = match self.state {
            GuardState::ReadPid => match reply {
                OsReply::Text(text) => match parse_pid(text.as_slice()) {
                    Some(pid) => GuardState::Probe(pid),
                    None => GuardState::Failed(ProcError::PidFileUnreadable),
                },
                _ => GuardState::Failed(ProcError::PidFileUnreadable),
            },
            GuardState::Probe(pid) => after_look(
                pid,
                reply,
                GuardState::Open(pid, StreamKind::Stdin),
                GuardState::ProbeLook(pid),
            ),
            GuardState::ProbeLook(pid) => after_asking(
                reply,
                GuardState::Open(pid, StreamKind::Stdin),
            ),
            GuardState::Open(pid, StreamKind::Stdin) => match reply {
                OsReply::Unit => GuardState::Open(pid, StreamKind::Stdout),
                _ => GuardState::Failed(reply.failure()),
            },
            GuardState::Open(pid, StreamKind::Stdout) => match reply {
                OsReply::Unit => GuardState::Open(pid, StreamKind::Stderr),
                _ => GuardState::Failed(reply.failure()),
            },
            GuardState::Open(pid, StreamKind::Stderr) => match reply {
                OsReply::Unit => GuardState::Poll(pid),
                OsReply::Failed(_) => GuardState::Poll(pid),
                _ => GuardState::Failed(ProcError::UnexpectedReply),
            },
            GuardState::Poll(pid) => after_look(
                pid,
                reply,
                GuardState::Sleep(pid),
                GuardState::PollLook(pid),
            ),
            GuardState::PollLook(pid) => after_asking(reply, GuardState::Sleep(pid)),
            GuardState::Sleep(pid) => GuardState::Poll(pid),
            GuardState::Finished => GuardState::Finished,
            GuardState::Failed(error) => GuardState::Failed(error),
        };
        Guard { state }
    }

    /// What the guard has come to; `None` while a call is pending.
    pub fn result(&self) -> (r: Option<Result<(), ProcError>>)
        ensures
            r == spec_guard_result(self.state),
    {
        match self.state {
            GuardState::Finished => Some(Ok(())),
            GuardState::Failed(error) => Some(Err(error)),
            _ => None,
        }
    }
}

/// The parent of the fork waits, suspended, for its own child and then
/// exits; it does nothing else.
pub proof fn lemma_fork_parent_reaps_child(child: i32, wait: WaitStatus)
    ensures
        ({
            let s1 = spec_fork_advance(ForkState::Forking, OsReply::ForkParent(child));
            let s2 = spec_fork_advance(s1, OsReply::Waited(wait));
            &&& spec_fork_pending(ForkState::Forking) == Some(OsCall::Fork)
            &&& spec_fork_pending(s1) == Some(OsCall::WaitPid(child, WaitMode::Blocking))
            &&& s2 == ForkState::Exit
        }),
{
}

/// The child of the fork leads a new session, starts the guard under the
/// guard's marker, records the guard's id and exits, whatever became of
/// the record.
pub proof fn lemma_fork_child_starts_guard(pid: u32, written: OsReply)
    ensures
        ({
            let s1 = spec_fork_advance(ForkState::Forking, OsReply::ForkChild);
            let s2 = spec_fork_advance(s1, OsReply::Unit);
            let s3 = spec_fork_advance(s2, OsReply::Pid(pid));
            let s4 = spec_fork_advance(s3, written);
            &&& spec_fork_pending(s1) == Some(OsCall::NewSession)
            &&& spec_fork_pending(s2) == Some(OsCall::SpawnSelf(Marker::Guard))
            &&& spec_fork_pending(s3) == Some(OsCall::WriteGuardFile(spec_signed(pid)))
            &&& s4 == ForkState::Exit
        }),
{
}

/// A fork that fails is fatal: the instance aborts at once.
pub proof fn lemma_fork_failure_aborts(code: i32)
    ensures
        spec_fork_advance(ForkState::Forking, OsReply::Failed(code)) == ForkState::Aborted(
            ProcError::Os(code),
        ),
        spec_fork_pending(ForkState::Aborted(ProcError::Os(code))) is None,
{
}

/// The guard exits in peace only when the death of the held process is
/// confirmed: by a look that reported its exit or its death by signal,
/// or, for a process that is no child of the guard, by the answer that
/// there is no such process. It does not leave a process that still
/// lives.
pub proof fn lemma_guard_outlives_process(state: GuardState, reply: OsReply)
    requires
        spec_guard_result(state) is None,
        spec_guard_advance(state, reply) == GuardState::Finished,
    ensures
        state is Probe || state is Poll || state is ProbeLook || state is PollLook,
        state is Probe || state is Poll ==> (reply matches OsReply::Waited(wait)
            && wait.spec_is_terminal()),
        state is ProbeLook || state is PollLook ==> reply.spec_says_gone(),
{
}

/// The guard of a process that is not its child watches it by asking
/// whether it exists. While the answer is that it does, the guard opens
/// the pipes at its start and sleeps between its later looks; no call of
/// these suspends the guard.
pub proof fn lemma_guard_watches_stranger(pid: i32, looked: OsReply)
    requires
        pid > 0,
        looked.spec_says_alive(),
    ensures
        ({
            let first = spec_guard_advance(GuardState::Probe(pid), OsReply::Failed(ECHILD));
            let later = spec_guard_advance(GuardState::Poll(pid), OsReply::Failed(ECHILD));
            &&& first == GuardState::ProbeLook(pid)
            &&& later == GuardState::PollLook(pid)
            &&& spec_guard_pending(first) == Some(OsCall::Signal(pid, NO_SIGNAL))
            &&& spec_guard_pending(later) == Some(OsCall::Signal(pid, NO_SIGNAL))
            &&& !OsCall::Signal(pid, NO_SIGNAL).spec_may_block()
            &&& spec_guard_advance(first, looked) == GuardState::Open(pid, StreamKind::Stdin)
            &&& spec_guard_advance(later, looked) == GuardState::Sleep(pid)
        }),
{
}

/// While the held process lives, the guard looks at it, sleeps for the
/// poll interval, and looks again; no look suspends the guard. This holds
/// of every outcome that does not say that the process has ended, a stop
/// and a resumption among them.
pub proof fn lemma_guard_polls_at_interval(pid: i32, wait: WaitStatus, slept: OsReply)
    requires
        !wait.spec_is_terminal(),
    ensures
        ({
            let s1 = spec_guard_advance(GuardState::Poll(pid), OsReply::Waited(wait));
            let s2 = spec_guard_advance(s1, slept);
            &&& spec_guard_pending(GuardState::Poll(pid)) == Some(
                OsCall::WaitPid(pid, WaitMode::NoHang),
            )
            &&& s1 == GuardState::Sleep(pid)
            &&& spec_guard_result(s1) is None
            &&& spec_guard_pending(s1) == Some(OsCall::Sleep(POLL_SECONDS))
            &&& s2 == GuardState::Poll(pid)
        }),
{
}

/// Before the pipes are open, a look that finds the held process alive
/// leads to the opening of the pipes, and not to the end of the guard.
pub proof fn lemma_guard_opens_pipes_for_living(pid: i32, wait: WaitStatus)
    requires
        !wait.spec_is_terminal(),
    ensures
        spec_guard_advance(GuardState::Probe(pid), OsReply::Waited(wait)) == GuardState::Open(
            pid,
            StreamKind::Stdin,
        ),
{
}

/// A spawn that is to hold its process in a program that did not run the
/// fork hook fails as unsupported once the process runs: it does not go
/// on as a plain spawn.
pub proof fn lemma_hold_needs_hook(plan: SpawnPlan, pid: u32)
    requires
        plan.hold,
        plan.platform == Platform::Posix,
        !plan.hook_installed,
    ensures
        spec_result(plan, spec_advance(plan, SpawnState::Join(pid), OsReply::Unit)) == Some(
            Err::<ChildWrapper, ProcError>(ProcError::HookNotInstalled),
        ),
        ProcError::HookNotInstalled.spec_is_unsupported(),
{
}

} // verus!
