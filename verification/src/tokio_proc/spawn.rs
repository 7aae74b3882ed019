//! The protocol of a spawn: reset the three named pipes, open both ends
//! of each so that neither side waits for the other for ever, create the
//! process, and detach it where that is asked for.

use vstd::prelude::*;
use crate::tokio_proc::child::spec_owned;
use crate::tokio_proc::child::ChildWrapper;
use crate::tokio_proc::error::ProcError;
use crate::tokio_proc::layout::spec_controller_kinds;
use crate::tokio_proc::layout::spec_subject_access;
use crate::tokio_proc::layout::subject_access;
use crate::tokio_proc::layout::FIFO_MODE;
use crate::tokio_proc::os::Marker;
use crate::tokio_proc::os::OsCall;
use crate::tokio_proc::os::OsReply;
use crate::tokio_proc::os::Platform;
use crate::tokio_proc::os::StreamKind;
use crate::tokio_proc::os::StreamMode;

verus! {

/// What a spawn is to do.
#[derive(Clone, Copy, Debug, PartialEq, Eq, Structural)]
pub struct SpawnPlan {
    pub platform: Platform,
    pub mode: StreamMode,
    /// Whether the process is to outlive the controller.
    pub hold: bool,
    /// Whether the program ran the fork hook at its start.
    pub hook_installed: bool,
}

/// Where a spawn stands. Every state but the last two awaits the reply to
/// one call.
#[derive(Clone, Copy, Debug, PartialEq, Eq, Structural)]
pub enum SpawnState {
    /// Looking for a stale pipe of this stream.
    Probe(StreamKind),
    /// Deleting the stale pipe of this stream.
    Remove(StreamKind),
    /// Making the pipe of this stream.
    Create(StreamKind),
    /// Starting the background work that opens the controller's ends.
    Background,
    /// Opening the held process's end of this stream.
    Subject(StreamKind),
    /// Creating the process.
    Launch,
    /// Waiting for the controller's ends; the process has this id.
    Join(u32),
    /// Creating the process with anonymous pipes.
    LaunchPiped,
    /// Starting the instance that forks the guard off.
    HoldSpawn(u32),
    /// Waiting for that instance to exit.
    HoldWait(u32),
    /// Done: the process has this id.
    Ready(u32),
    /// Given up.
    Failed(ProcError),
}

/// A spawn under way.
#[derive(Clone, Copy, Debug, PartialEq, Eq, Structural)]
pub struct Spawn {
    pub plan: SpawnPlan,
    pub state: SpawnState,
}

/// The most calls that a spawn makes.
pub const MAX_SPAWN_CALLS: usize = 17;

pub open spec fn spec_initial(plan: SpawnPlan) -> SpawnState {
    match plan.platform {
        Platform::Posix => SpawnState::Probe(StreamKind::Stdin),
        Platform::Other => SpawnState::LaunchPiped,
    }
}

/// The state after the stale pipe of a stream is out of the way. All
/// three paths are cleared, whatever the mode.
pub open spec fn spec_after_clear(kind: StreamKind) -> SpawnState {
    match kind {
        StreamKind::Stdin => SpawnState::Probe(StreamKind::Stdout),
        StreamKind::Stdout => SpawnState::Probe(StreamKind::Stderr),
        StreamKind::Stderr => SpawnState::Create(StreamKind::Stdin),
    }
}

pub open spec fn spec_after_create(mode: StreamMode, kind: StreamKind) -> SpawnState {
    match kind {
        StreamKind::Stdin => SpawnState::Create(StreamKind::Stdout),
        StreamKind::Stdout => match mode {
            StreamMode::WithStderr => SpawnState::Create(StreamKind::Stderr),
            StreamMode::NoStderr => SpawnState::Background,
        },
        StreamKind::Stderr => SpawnState::Background,
    }
}

pub open spec fn spec_after_subject(mode: StreamMode, kind: StreamKind) -> SpawnState {
    match kind {
        StreamKind::Stdin => SpawnState::Subject(StreamKind::Stdout),
        StreamKind::Stdout => match mode {
            StreamMode::WithStderr => SpawnState::Subject(StreamKind::Stderr),
            StreamMode::NoStderr => SpawnState::Launch,
        },
        StreamKind::Stderr => SpawnState::Launch,
    }
}

/// The state once the process runs and the controller has its ends.
/// Where the process is to be held, the fork hook must have run.
pub open spec fn spec_after_join(plan: SpawnPlan, pid: u32) -> SpawnState {
    if plan.hold && plan.platform == Platform::Posix {
        if plan.hook_installed {
            SpawnState::HoldSpawn(pid)
        } else {
            SpawnState::Failed(ProcError::HookNotInstalled)
        }
    } else {
        SpawnState::Ready(pid)
    }
}

/// The state that follows `state` on `reply`.
pub open spec fn spec_advance(plan: SpawnPlan, state: SpawnState, reply: OsReply) -> SpawnState {
    match state {
        SpawnState::Probe(kind) => match reply {
            OsReply::Exists(true) => SpawnState::Remove(kind),
            OsReply::Exists(false) => spec_after_clear(kind),
            OsReply::Failed(_) => spec_after_clear(kind),
            _ => SpawnState::Failed(ProcError::UnexpectedReply),
        },
        SpawnState::Remove(kind) => match reply {
            OsReply::Unit => spec_after_clear(kind),
            _ => SpawnState::Failed(reply.spec_failure()),
        },
        SpawnState::Create(kind) => match reply {
            OsReply::Unit => spec_after_create(plan.mode, kind),
            _ => SpawnState::Failed(reply.spec_failure()),
        },
        SpawnState::Background => match reply {
            OsReply::Unit => SpawnState::Subject(StreamKind::Stdin),
            _ => SpawnState::Failed(reply.spec_failure()),
        },
        SpawnState::Subject(kind) => match reply {
            OsReply::Unit => spec_after_subject(plan.mode, kind),
            _ => SpawnState::Failed(reply.spec_failure()),
        },
        SpawnState::Launch => match reply {
            OsReply::Pid(pid) => SpawnState::Join(pid),
            _ => SpawnState::Failed(reply.spec_failure()),
        },
        SpawnState::Join(pid) => match reply {
            OsReply::Unit => spec_after_join(plan, pid),
            _ => SpawnState::Failed(reply.spec_failure()),
        },
        SpawnState::LaunchPiped => match reply {
            OsReply::Pid(pid) => SpawnState::Ready(pid),
            _ => SpawnState::Failed(reply.spec_failure()),
        },
        SpawnState::HoldSpawn(pid) => match reply {
            OsReply::Pid(_) => SpawnState::HoldWait(pid),
            _ => SpawnState::Failed(reply.spec_failure()),
        },
        SpawnState::HoldWait(pid) => match reply {
            OsReply::Status(_) => SpawnState::Ready(pid),
            _ => SpawnState::Failed(reply.spec_failure()),
        },
        SpawnState::Ready(pid) => SpawnState::Ready(pid),
        SpawnState::Failed(error) => SpawnState::Failed(error),
    }
}

/// The call whose reply `state` awaits.
pub open spec fn spec_pending(plan: SpawnPlan, state: SpawnState) -> Option<OsCall> {
    match state {
        SpawnState::Probe(kind) => Some(OsCall::ProbePipe(kind)),
        SpawnState::Remove(kind) => Some(OsCall::RemovePipe(kind)),
        SpawnState::Create(kind) => Some(OsCall::MakeFifo(kind, FIFO_MODE)),
        SpawnState::Background => Some(OsCall::OpenControllerEnds(plan.mode)),
        SpawnState::Subject(kind) => Some(OsCall::OpenSubjectEnd(kind, spec_subject_access(kind))),
        SpawnState::Launch => Some(OsCall::Launch(plan.mode)),
        SpawnState::Join(_) => Some(OsCall::JoinControllerEnds),
        SpawnState::LaunchPiped => Some(OsCall::LaunchPiped),
        SpawnState::HoldSpawn(_) => Some(OsCall::SpawnSelf(Marker::ForkRequest)),
        SpawnState::HoldWait(_) => Some(OsCall::WaitSelf),
        SpawnState::Ready(_) => None,
        SpawnState::Failed(_) => None,
    }
}

/// What the spawn has come to, once it is over.
pub open spec fn spec_result(plan: SpawnPlan, state: SpawnState) -> Option<
    Result<ChildWrapper, ProcError>,
> {
    match state {
        SpawnState::Ready(pid) => Some(Ok(spec_owned(plan.platform, plan.mode, pid))),
        SpawnState::Failed(error) => Some(Err(error)),
        _ => None,
    }
}

/// The calls that a spawn makes from `state` on, when the driver answers
/// them with `replies` in turn. The call that awaits the first missing
/// reply is the last.
pub open spec fn spec_calls(plan: SpawnPlan, state: SpawnState, replies: Seq<OsReply>) -> Seq<
    OsCall,
>
    decreases replies.len(),
{
    match spec_pending(plan, state) {
        None => Seq::empty(),
        Some(call) => if replies.len() == 0 {
            seq![call]
        } else {
            seq![call] + spec_calls(plan, spec_advance(plan, state, replies[0]), replies.skip(1))
        },
    }
}

/// An upper bound on the calls that are still to come in `state`.
pub open spec fn spec_calls_left(state: SpawnState) -> nat {
    match state {
        SpawnState::Probe(StreamKind::Stdin) => 17,
        SpawnState::Remove(StreamKind::Stdin) => 16,
        SpawnState::Probe(StreamKind::Stdout) => 15,
        SpawnState::Remove(StreamKind::Stdout) => 14,
        SpawnState::Probe(StreamKind::Stderr) => 13,
        SpawnState::Remove(StreamKind::Stderr) => 12,
        SpawnState::Create(StreamKind::Stdin) => 11,
        SpawnState::Create(StreamKind::Stdout) => 10,
        SpawnState::Create(StreamKind::Stderr) => 9,
        SpawnState::Background => 8,
        SpawnState::Subject(StreamKind::Stdin) => 7,
        SpawnState::Subject(StreamKind::Stdout) => 6,
        SpawnState::Subject(StreamKind::Stderr) => 5,
        SpawnState::Launch => 4,
        SpawnState::Join(_) => 3,
        SpawnState::HoldSpawn(_) => 2,
        SpawnState::HoldWait(_) => 1,
        SpawnState::LaunchPiped => 1,
        SpawnState::Ready(_) => 0,
        SpawnState::Failed(_) => 0,
    }
}

fn after_clear(kind: StreamKind) -> (state: SpawnState)
    ensures
        state == spec_after_clear(kind),
{
    match kind {
        StreamKind::Stdin => SpawnState::Probe(StreamKind::Stdout),
        StreamKind::Stdout => SpawnState::Probe(StreamKind::Stderr),
        StreamKind::Stderr => SpawnState::Create(StreamKind::Stdin),
    }
}

fn after_create(mode: StreamMode, kind: StreamKind) -> (state: SpawnState)
    ensures
        state == spec_after_create(mode, kind),
{
    match kind {
        StreamKind::Stdin => SpawnState::Create(StreamKind::Stdout),
        StreamKind::Stdout => match mode {
            StreamMode::WithStderr => SpawnState::Create(StreamKind::Stderr),
            StreamMode::NoStderr => SpawnState::Background,
        },
        StreamKind::Stderr => SpawnState::Background,
    }
}

fn after_subject(mode: StreamMode, kind: StreamKind) -> (state: SpawnState)
    ensures
        state == spec_after_subject(mode, kind),
{
    match kind {
        StreamKind::Stdin => SpawnState::Subject(StreamKind::Stdout),
        StreamKind::Stdout => match mode {
            StreamMode::WithStderr => SpawnState::Subject(StreamKind::Stderr),
            StreamMode::NoStderr => SpawnState::Launch,
        },
        StreamKind::Stderr => SpawnState::Launch,
    }
}

fn after_join(plan: SpawnPlan, pid: u32) -> (state: SpawnState)
    ensures
        state == spec_after_join(plan, pid),
{
    let posix: bool = match plan.platform {
        Platform::Posix => true,
        Platform::Other => false,
    };
    if plan.hold && posix {
        if plan.hook_installed {
            SpawnState::HoldSpawn(pid)
        } else {
            SpawnState::Failed(ProcError::HookNotInstalled)
        }
    } else {
        SpawnState::Ready(pid)
    }
}

impl Spawn {
    /// A spawn at its start.
    pub fn new(plan: SpawnPlan) -> (spawn: Spawn)
        ensures
            spawn.plan == plan,
            spawn.state == spec_initial(plan),
    {
        let state = match plan.platform {
            Platform::Posix => SpawnState::Probe(StreamKind::Stdin),
            Platform::Other => SpawnState::LaunchPiped,
        };
        Spawn { plan, state }
    }

    /// The call that the driver is to perform next; `None` when the spawn
    /// is over.
    pub fn pending(&self) -> (call: Option<OsCall>)
        ensures
            call == spec_pending(self.plan, self.state),
            call is None <==> spec_result(self.plan, self.state) is Some,
    {
        match self.state {
            SpawnState::Probe(kind) => Some(OsCall::ProbePipe(kind)),
            SpawnState::Remove(kind) => Some(OsCall::RemovePipe(kind)),
            SpawnState::Create(kind) => Some(OsCall::MakeFifo(kind, FIFO_MODE)),
            SpawnState::Background => Some(OsCall::OpenControllerEnds(self.plan.mode)),
            SpawnState::Subject(kind) => Some(OsCall::OpenSubjectEnd(kind, subject_access(kind))),
            SpawnState::Launch => Some(OsCall::Launch(self.plan.mode)),
            SpawnState::Join(_) => Some(OsCall::JoinControllerEnds),
            SpawnState::LaunchPiped => Some(OsCall::LaunchPiped),
            SpawnState::HoldSpawn(_) => Some(OsCall::SpawnSelf(Marker::ForkRequest)),
            SpawnState::HoldWait(_) => Some(OsCall::WaitSelf),
            SpawnState::Ready(_) => None,
            SpawnState::Failed(_) => None,
        }
    }

    /// The spawn after the driver's reply to the pending call. A spawn
    /// that is over stays as it is.
    pub fn advance(self, reply: &OsReply) -> (next: Spawn)
        ensures
            next.plan == self.plan,
            next.state == spec_advance(self.plan, self.state, *reply),
    {
        let plan = self.plan;
        let state = match self.state {
            SpawnState::Probe(kind) => match reply {
                OsReply::Exists(true) => SpawnState::Remove(kind),
                OsReply::Exists(false) => after_clear(kind),
                OsReply::Failed(_) => after_clear(kind),
                _ => SpawnState::Failed(ProcError::UnexpectedReply),
            },
            SpawnState::Remove(kind) => match reply {
                OsReply::Unit => after_clear(kind),
                _ => SpawnState::Failed(reply.failure()),
            },
            SpawnState::Create(kind) => match reply {
                OsReply::Unit => after_create(plan.mode, kind),
                _ => SpawnState::Failed(reply.failure()),
            },
            SpawnState::Background => match reply {
                OsReply::Unit => SpawnState::Subject(StreamKind::Stdin),
                _ => SpawnState::Failed(reply.failure()),
            },
            SpawnState::Subject(kind) => match reply {
                OsReply::Unit => after_subject(plan.mode, kind),
                _ => SpawnState::Failed(reply.failure()),
            },
            SpawnState::Launch => match reply {
                OsReply::Pid(pid) => SpawnState::Join(*pid),
                _ => SpawnState::Failed(reply.failure()),
            },
            SpawnState::Join(pid) => match reply {
                OsReply::Unit => after_join(plan, pid),
                _ => SpawnState::Failed(reply.failure()),
            },
            SpawnState::LaunchPiped => match reply {
                OsReply::Pid(pid) => SpawnState::Ready(*pid),
                _ => SpawnState::Failed(reply.failure()),
            },
            SpawnState::HoldSpawn(pid) => match reply {
                OsReply::Pid(_) => SpawnState::HoldWait(pid),
                _ => SpawnState::Failed(reply.failure()),
            },
            SpawnState::HoldWait(pid) => match reply {
                OsReply::Status(_) => SpawnState::Ready(pid),
                _ => SpawnState::Failed(reply.failure()),
            },
            SpawnState::Ready(pid) => SpawnState::Ready(pid),
            SpawnState::Failed(error) => SpawnState::Failed(error),
        };
        Spawn { plan, state }
    }

    /// What the spawn has come to: the wrapper of the process, or the
    /// failure; `None` while a call is pending.
    pub fn result(&self) -> (r: Option<Result<ChildWrapper, ProcError>>)
        ensures
            r == spec_result(self.plan, self.state),
    {
        match self.state {
            SpawnState::Ready(pid) => Some(
                Ok(ChildWrapper::owned(self.plan.platform, self.plan.mode, pid)),
            ),
            SpawnState::Failed(error) => Some(Err(error)),
            _ => None,
        }
    }
}

impl ChildWrapper {
    /// Starts the spawn of a process that gets all three streams through
    /// named pipes in the working directory, so that another controller
    /// can attach to it while this one lives.
    pub fn spawn(platform: Platform) -> (spawn: Spawn)
        ensures
            spawn.plan == (SpawnPlan {
                platform,
                mode: StreamMode::WithStderr,
                hold: false,
                hook_installed: false,
            }),
            spawn.state == spec_initial(spawn.plan),
    {
        Spawn::new(
            SpawnPlan { platform, mode: StreamMode::WithStderr, hold: false, hook_installed: false },
        )
    }

    /// As `spawn`, without a pipe for the error stream.
    pub fn spawn_noerr(platform: Platform) -> (spawn: Spawn)
        ensures
            spawn.plan == (SpawnPlan {
                platform,
                mode: StreamMode::NoStderr,
                hold: false,
                hook_installed: false,
            }),
            spawn.state == spec_initial(spawn.plan),
    {
        Spawn::new(
            SpawnPlan { platform, mode: StreamMode::NoStderr, hold: false, hook_installed: false },
        )
    }
}

/// Each reply takes a spawn that is not over strictly nearer to its end.
pub proof fn lemma_advance_nears_end(plan: SpawnPlan, state: SpawnState, reply: OsReply)
    requires
        spec_pending(plan, state) is Some,
    ensures
        spec_calls_left(spec_advance(plan, state, reply)) < spec_calls_left(state),
{
}

/// A spawn is over after a bounded number of calls, whatever the driver
/// replies.
pub proof fn lemma_calls_bounded(plan: SpawnPlan, state: SpawnState, replies: Seq<OsReply>)
    ensures
        spec_calls(plan, state, replies).len() <= spec_calls_left(state),
        spec_calls(plan, spec_initial(plan), replies).len() <= MAX_SPAWN_CALLS,
{
    lemma_calls_bounded_from(plan, state, replies);
    lemma_calls_bounded_from(plan, spec_initial(plan), replies);
}

proof fn lemma_calls_bounded_from(plan: SpawnPlan, state: SpawnState, replies: Seq<OsReply>)
    ensures
        spec_calls(plan, state, replies).len() <= spec_calls_left(state),
    decreases replies.len(),
{
    if spec_pending(plan, state) is Some && replies.len() > 0 {
        let next = spec_advance(plan, state, replies[0]);
        lemma_advance_nears_end(plan, state, replies[0]);
        lemma_calls_bounded_from(plan, next, replies.skip(1));
    }
}

/// The controller's ends and the held process's ends are opened at the
/// same time. In the calls of a spawn from `state`, where the background
/// work is not yet under way, a call that opens an end for the held
/// process comes after the call that starts the background work on the
/// controller's ends, and no call up to it waits for that work.
pub proof fn lemma_opens_in_flight_together(
    plan: SpawnPlan,
    state: SpawnState,
    replies: Seq<OsReply>,
    i: int,
)
    requires
        state is Probe || state is Remove || state is Create || state is Background,
        0 <= i < spec_calls(plan, state, replies).len(),
        spec_calls(plan, state, replies)[i] is OpenSubjectEnd,
    ensures
        exists|j: int|
            0 <= j < i && #[trigger] spec_calls(plan, state, replies)[j]
                == OsCall::OpenControllerEnds(plan.mode),
        forall|k: int|
            0 <= k <= i ==> #[trigger] spec_calls(plan, state, replies)[k]
                != OsCall::JoinControllerEnds,
    decreases replies.len(),
{
    let calls = spec_calls(plan, state, replies);
    if i == 0 || replies.len() == 0 {
        assert(calls[0] == spec_pending(plan, state).unwrap());
    } else {
        let next = spec_advance(plan, state, replies[0]);
        let rest = spec_calls(plan, next, replies.skip(1));
        assert(calls =~= seq![spec_pending(plan, state).unwrap()] + rest);
        assert(rest[i - 1] == calls[i]);
        if state is Background {
            assert(calls[0] == OsCall::OpenControllerEnds(plan.mode));
            lemma_no_join_before_subject(plan, next, replies.skip(1), i - 1);
            assert forall|k: int| 0 <= k <= i implies #[trigger] calls[k]
                != OsCall::JoinControllerEnds by {
                if k > 0 {
                    assert(rest[k - 1] == calls[k]);
                }
            }
        } else {
            assert(next is Probe || next is Remove || next is Create || next is Background);
            lemma_opens_in_flight_together(plan, next, replies.skip(1), i - 1);
            let j = choose|j: int|
                0 <= j < i - 1 && #[trigger] rest[j] == OsCall::OpenControllerEnds(plan.mode);
            assert(calls[j + 1] == rest[j]);
            assert forall|k: int| 0 <= k <= i implies #[trigger] calls[k]
                != OsCall::JoinControllerEnds by {
                if k > 0 {
                    assert(rest[k - 1] == calls[k]);
                }
            }
        }
    }
}

proof fn lemma_no_join_before_subject(
    plan: SpawnPlan,
    state: SpawnState,
    replies: Seq<OsReply>,
    i: int,
)
    requires
        0 <= i < spec_calls(plan, state, replies).len(),
        spec_calls(plan, state, replies)[i] is OpenSubjectEnd,
    ensures
        forall|k: int|
            0 <= k <= i ==> #[trigger] spec_calls(plan, state, replies)[k]
                != OsCall::JoinControllerEnds,
    decreases replies.len(),
{
    let calls = spec_calls(plan, state, replies);
    if i == 0 || replies.len() == 0 {
        assert(calls[0] == spec_pending(plan, state).unwrap());
    } else {
        let next = spec_advance(plan, state, replies[0]);
        let rest = spec_calls(plan, next, replies.skip(1));
        assert(calls =~= seq![spec_pending(plan, state).unwrap()] + rest);
        assert(rest[i - 1] == calls[i]);
        lemma_no_join_before_subject(plan, next, replies.skip(1), i - 1);
        lemma_subject_not_after_launch(plan, next, replies.skip(1), i - 1);
        assert forall|k: int| 0 <= k <= i implies #[trigger] calls[k]
            != OsCall::JoinControllerEnds by {
            if k > 0 {
                assert(rest[k - 1] == calls[k]);
            }
        }
    }
}

/// From the launch on, no end is opened for the held process.
proof fn lemma_subject_not_after_launch(
    plan: SpawnPlan,
    state: SpawnState,
    replies: Seq<OsReply>,
    i: int,
)
    requires
        0 <= i < spec_calls(plan, state, replies).len(),
        spec_calls(plan, state, replies)[i] is OpenSubjectEnd,
    ensures
        !(state is Launch || state is Join || state is LaunchPiped || state is HoldSpawn
            || state is HoldWait),
    decreases replies.len(),
{
    let calls = spec_calls(plan, state, replies);
    if i == 0 || replies.len() == 0 {
        assert(calls[0] == spec_pending(plan, state).unwrap());
    } else {
        let next = spec_advance(plan, state, replies[0]);
        let rest = spec_calls(plan, next, replies.skip(1));
        assert(calls =~= seq![spec_pending(plan, state).unwrap()] + rest);
        assert(rest[i - 1] == calls[i]);
        lemma_subject_not_after_launch(plan, next, replies.skip(1), i - 1);
    }
}

/// No process is created after a failure. In the calls of a spawn, every
/// call before the one that creates the process went through, but for the
/// probes, whose failure only says that there is nothing to delete.
pub proof fn lemma_launch_only_after_success(
    plan: SpawnPlan,
    state: SpawnState,
    replies: Seq<OsReply>,
    i: int,
)
    requires
        0 <= i < spec_calls(plan, state, replies).len(),
        spec_calls(plan, state, replies)[i] is Launch || spec_calls(plan, state, replies)[i]
            is LaunchPiped,
    ensures
        i <= replies.len(),
        forall|k: int|
            0 <= k < i ==> (#[trigger] spec_calls(plan, state, replies)[k]) is ProbePipe
                || replies[k] is Unit,
    decreases replies.len(),
{
    let calls = spec_calls(plan, state, replies);
    if i == 0 || replies.len() == 0 {
        assert(calls[0] == spec_pending(plan, state).unwrap());
    } else {
        let next = spec_advance(plan, state, replies[0]);
        let rest = spec_calls(plan, next, replies.skip(1));
        assert(calls =~= seq![spec_pending(plan, state).unwrap()] + rest);
        assert(rest[i - 1] == calls[i]);
        lemma_launch_only_after_success(plan, next, replies.skip(1), i - 1);
        lemma_launch_not_after_itself(plan, next, replies.skip(1), i - 1);
        assert(spec_pending(plan, next) is Some);
        assert forall|k: int| 0 <= k < i implies (#[trigger] calls[k]) is ProbePipe
            || replies[k] is Unit by {
            if k > 0 {
                assert(rest[k - 1] == calls[k]);
                assert(replies.skip(1)[k - 1] == replies[k]);
            }
        }
    }
}

/// Once the process is created, it is not created again.
proof fn lemma_launch_not_after_itself(
    plan: SpawnPlan,
    state: SpawnState,
    replies: Seq<OsReply>,
    i: int,
)
    requires
        0 <= i < spec_calls(plan, state, replies).len(),
        spec_calls(plan, state, replies)[i] is Launch || spec_calls(plan, state, replies)[i]
            is LaunchPiped,
    ensures
        !(state is Join || state is HoldSpawn || state is HoldWait),
    decreases replies.len(),
{
    let calls = spec_calls(plan, state, replies);
    if i == 0 || replies.len() == 0 {
        assert(calls[0] == spec_pending(plan, state).unwrap());
    } else {
        let next = spec_advance(plan, state, replies[0]);
        let rest = spec_calls(plan, next, replies.skip(1));
        assert(calls =~= seq![spec_pending(plan, state).unwrap()] + rest);
        assert(rest[i - 1] == calls[i]);
        lemma_launch_not_after_itself(plan, next, replies.skip(1), i - 1);
    }
}

/// The phase of a spawn that a call belongs to: clearing the paths,
/// making the pipes, starting the controller's ends, opening the held
/// process's ends, creating the process, waiting for the controller's
/// ends, starting the forking instance, waiting for it.
pub open spec fn spec_call_phase(call: OsCall) -> int {
    match call {
        OsCall::ProbePipe(_) => 0,
        OsCall::RemovePipe(_) => 0,
        OsCall::MakeFifo(_, _) => 1,
        OsCall::OpenControllerEnds(_) => 2,
        OsCall::OpenSubjectEnd(_, _) => 3,
        OsCall::Launch(_) => 4,
        OsCall::LaunchPiped => 4,
        OsCall::JoinControllerEnds => 5,
        OsCall::SpawnSelf(_) => 6,
        OsCall::WaitSelf => 7,
        _ => 8,
    }
}

/// The phase that a spawn is in: that of its pending call, and the last
/// phase once it is over.
pub open spec fn spec_state_phase(plan: SpawnPlan, state: SpawnState) -> int {
    match spec_pending(plan, state) {
        Some(call) => spec_call_phase(call),
        None => 8,
    }
}

/// No call of a spawn belongs to a phase before the one that the spawn is
/// in.
proof fn lemma_calls_not_before_state(
    plan: SpawnPlan,
    state: SpawnState,
    replies: Seq<OsReply>,
    i: int,
)
    requires
        0 <= i < spec_calls(plan, state, replies).len(),
    ensures
        spec_state_phase(plan, state) <= spec_call_phase(spec_calls(plan, state, replies)[i]),
    decreases replies.len(),
{
    let calls = spec_calls(plan, state, replies);
    if i == 0 || replies.len() == 0 {
        assert(calls[0] == spec_pending(plan, state).unwrap());
    } else {
        let next = spec_advance(plan, state, replies[0]);
        let rest = spec_calls(plan, next, replies.skip(1));
        assert(calls =~= seq![spec_pending(plan, state).unwrap()] + rest);
        assert(rest[i - 1] == calls[i]);
        lemma_calls_not_before_state(plan, next, replies.skip(1), i - 1);
        assert(spec_state_phase(plan, state) <= spec_state_phase(plan, next));
    }
}

/// The calls of a spawn come phase after phase, whatever the driver
/// replies: the paths are cleared before a pipe is made, the pipes are
/// made before an end is opened, the controller's ends are started before
/// the held process's ends are opened, those are open before the process
/// is created, and the process is created before the controller's ends
/// are waited for and before the guard is set up.
pub proof fn lemma_calls_in_phases(
    plan: SpawnPlan,
    state: SpawnState,
    replies: Seq<OsReply>,
    i: int,
    j: int,
)
    requires
        0 <= i <= j < spec_calls(plan, state, replies).len(),
    ensures
        spec_call_phase(spec_calls(plan, state, replies)[i]) <= spec_call_phase(
            spec_calls(plan, state, replies)[j],
        ),
    decreases replies.len(),
{
    let calls = spec_calls(plan, state, replies);
    if i == j {
    } else if i == 0 {
        assert(calls[0] == spec_pending(plan, state).unwrap());
        lemma_calls_not_before_state(plan, state, replies, j);
    } else {
        let next = spec_advance(plan, state, replies[0]);
        let rest = spec_calls(plan, next, replies.skip(1));
        assert(calls =~= seq![spec_pending(plan, state).unwrap()] + rest);
        assert(rest[i - 1] == calls[i]);
        assert(rest[j - 1] == calls[j]);
        lemma_calls_in_phases(plan, next, replies.skip(1), i - 1, j - 1);
    }
}

/// Whether a reply says that a call of a spawn went through.
pub open spec fn spec_went_through(call: OsCall, reply: OsReply) -> bool {
    match call {
        OsCall::ProbePipe(_) => reply is Exists || reply is Failed,
        OsCall::Launch(_) => reply is Pid,
        OsCall::LaunchPiped => reply is Pid,
        OsCall::SpawnSelf(_) => reply is Pid,
        OsCall::WaitSelf => reply is Status,
        _ => reply is Unit,
    }
}

/// The state of a spawn after the driver's replies, in turn.
pub open spec fn spec_run(plan: SpawnPlan, state: SpawnState, replies: Seq<OsReply>) -> SpawnState
    decreases replies.len(),
{
    if replies.len() == 0 {
        state
    } else {
        spec_run(plan, spec_advance(plan, state, replies[0]), replies.skip(1))
    }
}

/// A spawn whose calls all go through succeeds. It ends with the wrapper
/// of the process; the one exception is a spawn that is to hold its
/// process in a program that did not run the fork hook, which ends as
/// unsupported.
pub proof fn lemma_spawn_succeeds(plan: SpawnPlan, state: SpawnState, replies: Seq<OsReply>)
    requires
        !(state is Failed),
        replies.len() >= spec_calls_left(state),
        forall|i: int|
            0 <= i < spec_calls(plan, state, replies).len() && i < replies.len()
                ==> spec_went_through(#[trigger] spec_calls(plan, state, replies)[i], replies[i]),
    ensures
        spec_run(plan, state, replies) is Ready || (spec_run(plan, state, replies)
            == SpawnState::Failed(ProcError::HookNotInstalled) && plan.hold && !plan.hook_installed),
        spec_result(plan, spec_run(plan, state, replies)) is Some,
    decreases replies.len(),
{
    let calls = spec_calls(plan, state, replies);
    if replies.len() == 0 {
    } else if spec_pending(plan, state) is None {
        lemma_run_of_finished(plan, state, replies);
    } else {
        let next = spec_advance(plan, state, replies[0]);
        let rest = spec_calls(plan, next, replies.skip(1));
        assert(calls =~= seq![spec_pending(plan, state).unwrap()] + rest);
        assert(spec_went_through(calls[0], replies[0]));
        lemma_advance_nears_end(plan, state, replies[0]);
        if next is Failed {
            lemma_run_of_finished(plan, next, replies.skip(1));
        } else {
            assert forall|i: int|
                0 <= i < rest.len() && i < replies.skip(1).len() implies spec_went_through(
                #[trigger] rest[i],
                replies.skip(1)[i],
            ) by {
                assert(rest[i] == calls[i + 1]);
                assert(replies.skip(1)[i] == replies[i + 1]);
            }
            lemma_spawn_succeeds(plan, next, replies.skip(1));
        }
    }
}

/// A spawn that is over stays as it is.
proof fn lemma_run_of_finished(plan: SpawnPlan, state: SpawnState, replies: Seq<OsReply>)
    requires
        spec_pending(plan, state) is None,
    ensures
        spec_run(plan, state, replies) == state,
    decreases replies.len(),
{
    if replies.len() > 0 {
        lemma_run_of_finished(plan, state, replies.skip(1));
    }
}

/// The two sides open the pipes in one order. The held process's ends
/// are opened, stream after stream, in the order in which the background
/// work opens the controller's ends, and once the last of them is open
/// the process is created. Were the orders to differ, each side would
/// wait for the other for ever.
pub proof fn lemma_ends_open_in_one_order(plan: SpawnPlan, i: int)
    requires
        0 <= i < spec_controller_kinds(plan.mode).len(),
    ensures
        spec_advance(plan, SpawnState::Background, OsReply::Unit) == SpawnState::Subject(
            spec_controller_kinds(plan.mode)[0],
        ),
        spec_advance(plan, SpawnState::Subject(spec_controller_kinds(plan.mode)[i]), OsReply::Unit)
            == (if i + 1 < spec_controller_kinds(plan.mode).len() {
            SpawnState::Subject(spec_controller_kinds(plan.mode)[i + 1])
        } else {
            SpawnState::Launch
        }),
{
}

} // verus!
