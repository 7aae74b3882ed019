//! The vocabulary between the supervision protocols and the program that
//! drives them. A protocol hands out one call at a time; the driver
//! performs it and hands back the reply.

use vstd::prelude::*;
use crate::tokio_proc::error::ProcError;
use crate::tokio_proc::error::ECHILD;
use crate::tokio_proc::error::EPERM;
use crate::tokio_proc::error::ESRCH;
use crate::tokio_proc::status::ExitStatus;
use crate::tokio_proc::status::WaitStatus;

verus! {

/// One of the three standard streams of the held process.
#[derive(Clone, Copy, Debug, PartialEq, Eq, Structural)]
pub enum StreamKind {
    Stdin,
    Stdout,
    Stderr,
}

/// How one end of a pipe is opened.
#[derive(Clone, Copy, Debug, PartialEq, Eq, Structural)]
pub enum Access {
    /// For reading.
    Read,
    /// For writing; the pipe must be there.
    Write,
    /// For writing; the file is made if it is not there.
    Create,
}

/// Which of its streams the held process gets through pipes.
#[derive(Clone, Copy, Debug, PartialEq, Eq, Structural)]
pub enum StreamMode {
    /// All three.
    WithStderr,
    /// Standard input and output; the error stream goes nowhere.
    NoStderr,
}

/// What the platform offers.
#[derive(Clone, Copy, Debug, PartialEq, Eq, Structural)]
pub enum Platform {
    /// Named pipes, sessions, fork and wait for any process id.
    Posix,
    /// None of these: a process can be created with anonymous pipes and
    /// nothing more.
    Other,
}

/// The mark in the environment of a fresh instance of the program.
#[derive(Clone, Copy, Debug, PartialEq, Eq, Structural)]
pub enum Marker {
    /// The instance is asked to fork the guard off.
    ForkRequest,
    /// The instance is the guard.
    Guard,
}

/// Whether a wait suspends the caller.
#[derive(Clone, Copy, Debug, PartialEq, Eq, Structural)]
pub enum WaitMode {
    /// Until the process changes state. The driver issues it once, on an
    /// execution context that may block.
    Blocking,
    /// Not at all: the call says at once what there is to say.
    NoHang,
}

/// A call that a protocol asks its driver to perform. Paths are relative
/// to the working directory of the protocol.
#[derive(Clone, Copy, Debug, PartialEq, Eq, Structural)]
pub enum OsCall {
    /// Is there a file at the path of this stream's pipe?
    ProbePipe(StreamKind),
    /// Delete the file at the path of this stream's pipe.
    RemovePipe(StreamKind),
    /// Make a named pipe for this stream, with these permission bits.
    MakeFifo(StreamKind, u32),
    /// Start opening the controller's ends of the pipes of this mode, one
    /// after the other in the order of `controller_kinds`, each with its
    /// `controller_access`, as one unit of work in the background, and
    /// return without waiting for it.
    OpenControllerEnds(StreamMode),
    /// Open the held process's end of this stream's pipe, on the calling
    /// thread.
    OpenSubjectEnd(StreamKind, Access),
    /// Create the held process with the subject ends as its standard
    /// streams.
    Launch(StreamMode),
    /// Create the held process with anonymous pipes for its standard
    /// input and output.
    LaunchPiped,
    /// Wait for the background work that opens the controller's ends.
    JoinControllerEnds,
    /// Open the controller's end of this stream's pipe.
    OpenControllerEnd(StreamKind, Access),
    /// Wait for the owned process through its handle.
    WaitOwned,
    /// Ask the handle of the owned process whether it has ended.
    TryWaitOwned,
    /// End the owned process through its handle.
    KillOwned,
    /// Wait for this process id.
    WaitPid(i32, WaitMode),
    /// Send this process id this signal. The number zero sends nothing:
    /// the call then only asks whether the process exists.
    Signal(i32, i32),
    /// Start the running program anew, without standard streams, with the
    /// working directory as the value of this marker, and keep its handle.
    SpawnSelf(Marker),
    /// Wait for the instance that `SpawnSelf` started.
    WaitSelf,
    /// Fork the calling process.
    Fork,
    /// Make the calling process the leader of a new session.
    NewSession,
    /// Read the file that records the held process.
    ReadPidFile,
    /// Write this process id, as text, to the file that records the guard.
    WriteGuardFile(i32),
    /// Sleep for this many seconds.
    Sleep(u64),
}

/// What the driver reports of a call.
#[derive(Debug)]
pub enum OsReply {
    /// The call was carried out and has nothing to tell.
    Unit,
    /// The operating system refused the call with this error number.
    Failed(i32),
    /// Whether the file is there.
    Exists(bool),
    /// The id of the process that was created.
    Pid(u32),
    /// The owned process has ended with this status.
    Status(ExitStatus),
    /// The owned process has not ended yet.
    Running,
    /// What the wait for a process id reported.
    Waited(WaitStatus),
    /// The blocking wait was abandoned by its execution context.
    Abandoned,
    /// The fork went through, and this is the parent: its child has this
    /// process id.
    ForkParent(i32),
    /// The fork went through, and this is the child.
    ForkChild,
    /// The bytes of the file.
    Text(Vec<u8>),
}

/// The number in the place of a signal that sends nothing.
pub const NO_SIGNAL: i32 = 0;

impl OsReply {
    /// Whether a wait for this process id without suspending was refused
    /// because the process is no child of the caller. The system waits
    /// for children alone; of any other process it can only be asked
    /// whether it exists.
    pub open spec fn spec_asks_for_look(self, pid: i32) -> bool {
        self == OsReply::Failed(ECHILD) && pid > 0
    }

    /// Whether the reply to the question whether a process exists says
    /// that it does: the question went through, or it was refused for
    /// want of permission, which is only said of a process that is there.
    pub open spec fn spec_says_alive(self) -> bool {
        self is Unit || self == OsReply::Failed(EPERM)
    }

    /// Whether the reply to the question whether a process exists says
    /// that there is no such process.
    pub open spec fn spec_says_gone(self) -> bool {
        self == OsReply::Failed(ESRCH)
    }

    /// Whether a wait for this process id without suspending was refused
    /// because the process is no child of the caller.
    pub fn asks_for_look(&self, pid: i32) -> (r: bool)
        ensures
            r == self.spec_asks_for_look(pid),
    {
        match self {
            OsReply::Failed(code) => *code == ECHILD && pid > 0,
            _ => false,
        }
    }

    /// Whether the reply to the question whether a process exists says
    /// that it does.
    pub fn says_alive(&self) -> (r: bool)
        ensures
            r == self.spec_says_alive(),
    {
        match self {
            OsReply::Unit => true,
            OsReply::Failed(code) => *code == EPERM,
            _ => false,
        }
    }

    /// Whether the reply to the question whether a process exists says
    /// that there is no such process.
    pub fn says_gone(&self) -> (r: bool)
        ensures
            r == self.spec_says_gone(),
    {
        match self {
            OsReply::Failed(code) => *code == ESRCH,
            _ => false,
        }
    }

    /// The failure that the reply stands for where a protocol awaited
    /// another one.
    pub open spec fn spec_failure(self) -> ProcError {
        match self {
            OsReply::Failed(code) => ProcError::Os(code),
            OsReply::Abandoned => ProcError::WaitAbandoned,
            _ => ProcError::UnexpectedReply,
        }
    }

    /// The failure that the reply stands for where a protocol awaited
    /// another one: the refusal of the operating system, the loss of a
    /// blocking wait, or a reply that answers nothing.
    pub fn failure(&self) -> (error: ProcError)
        ensures
            error == self.spec_failure(),
    {
        match self {
            OsReply::Failed(code) => ProcError::Os(*code),
            OsReply::Abandoned => ProcError::WaitAbandoned,
            _ => ProcError::UnexpectedReply,
        }
    }
}

impl OsCall {
    pub open spec fn spec_may_block(self) -> bool {
        match self {
            OsCall::WaitOwned => true,
            OsCall::WaitSelf => true,
            OsCall::JoinControllerEnds => true,
            OsCall::OpenSubjectEnd(_, _) => true,
            OsCall::OpenControllerEnd(_, _) => true,
            OsCall::WaitPid(_, mode) => mode == WaitMode::Blocking,
            OsCall::Sleep(_) => true,
            _ => false,
        }
    }

    /// Whether the call may suspend the caller until another process
    /// acts.
    pub fn may_block(&self) -> (r: bool)
        ensures
            r == self.spec_may_block(),
    {
        match self {
            OsCall::WaitOwned => true,
            OsCall::WaitSelf => true,
            OsCall::JoinControllerEnds => true,
            OsCall::OpenSubjectEnd(_, _) => true,
            OsCall::OpenControllerEnd(_, _) => true,
            OsCall::WaitPid(_, mode) => match mode {
                WaitMode::Blocking => true,
                WaitMode::NoHang => false,
            },
            OsCall::Sleep(_) => true,
            _ => false,
        }
    }
}

} // verus!
