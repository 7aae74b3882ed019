//! The handle on a held process: one that the controller created itself,
//! or one that it found by its process id.

use vstd::prelude::*;
use crate::le::spec_unsigned;
use crate::le::unsigned;
use crate::tokio_proc::layout::spec_controller_access;
use crate::tokio_proc::layout::spec_reopen_access;
use crate::tokio_proc::os::Access;
use crate::tokio_proc::os::Platform;
use crate::tokio_proc::os::StreamKind;
use crate::tokio_proc::os::StreamMode;

verus! {

/// What the controller holds of the process.
#[derive(Clone, Copy, Debug, PartialEq, Eq, Structural)]
pub enum ChildHandle {
    /// The process is a child of the controller, which owns its handle
    /// and reaps it by waiting. The field is its process id.
    Owned(u32),
    /// The process is known by its id alone. It is ended by a signal, and
    /// whoever is its parent reaps it.
    Attached(i32),
}

/// The controller's end of the pipe of one stream.
#[derive(Clone, Copy, Debug, PartialEq, Eq, Structural)]
pub struct Endpoint {
    pub kind: StreamKind,
    pub access: Access,
}

/// A held process with the controller's ends of its streams. The caller
/// takes the ends out of the fields; what it took is not kept here.
#[derive(Clone, Copy, Debug, PartialEq, Eq, Structural)]
pub struct ChildWrapper {
    pub handle: ChildHandle,
    pub stdin: Option<Endpoint>,
    pub stdout: Option<Endpoint>,
    pub stderr: Option<Endpoint>,
}

/// The wrapper of a process that the controller has just created.
pub open spec fn spec_owned(platform: Platform, mode: StreamMode, pid: u32) -> ChildWrapper {
    ChildWrapper {
        handle: ChildHandle::Owned(pid),
        stdin: Some(
            Endpoint { kind: StreamKind::Stdin, access: spec_controller_access(StreamKind::Stdin) },
        ),
        stdout: Some(
            Endpoint {
                kind: StreamKind::Stdout,
                access: spec_controller_access(StreamKind::Stdout),
            },
        ),
        stderr: if platform == Platform::Posix && mode == StreamMode::WithStderr {
            Some(
                Endpoint {
                    kind: StreamKind::Stderr,
                    access: spec_controller_access(StreamKind::Stderr),
                },
            )
        } else {
            None
        },
    }
}

/// The wrapper of a process that the controller has found by its id.
pub open spec fn spec_attached(pid: i32) -> ChildWrapper {
    ChildWrapper {
        handle: ChildHandle::Attached(pid),
        stdin: Some(
            Endpoint { kind: StreamKind::Stdin, access: spec_reopen_access(StreamKind::Stdin) },
        ),
        stdout: Some(
            Endpoint { kind: StreamKind::Stdout, access: spec_reopen_access(StreamKind::Stdout) },
        ),
        stderr: Some(
            Endpoint { kind: StreamKind::Stderr, access: spec_reopen_access(StreamKind::Stderr) },
        ),
    }
}

impl ChildWrapper {
    pub open spec fn spec_id(self) -> Option<u32> {
        match self.handle {
            ChildHandle::Owned(pid) => Some(pid),
            ChildHandle::Attached(pid) => Some(spec_unsigned(pid)),
        }
    }

    /// The wrapper of a process that the controller has just created with
    /// the given streams.
    pub fn owned(platform: Platform, mode: StreamMode, pid: u32) -> (wrapper: ChildWrapper)
        ensures
            wrapper == spec_owned(platform, mode, pid),
    {
        let with_stderr: bool = match (platform, mode) {
            (Platform::Posix, StreamMode::WithStderr) => true,
            _ => false,
        };
        ChildWrapper {
            handle: ChildHandle::Owned(pid),
            stdin: Some(Endpoint { kind: StreamKind::Stdin, access: Access::Write }),
            stdout: Some(Endpoint { kind: StreamKind::Stdout, access: Access::Read }),
            stderr: if with_stderr {
                Some(Endpoint { kind: StreamKind::Stderr, access: Access::Read })
            } else {
                None
            },
        }
    }

    /// The wrapper of a process that the controller has found by its id,
    /// with all three streams.
    pub fn attached(pid: i32) -> (wrapper: ChildWrapper)
        ensures
            wrapper == spec_attached(pid),
    {
        ChildWrapper {
            handle: ChildHandle::Attached(pid),
            stdin: Some(Endpoint { kind: StreamKind::Stdin, access: Access::Create }),
            stdout: Some(Endpoint { kind: StreamKind::Stdout, access: Access::Read }),
            stderr: Some(Endpoint { kind: StreamKind::Stderr, access: Access::Read }),
        }
    }

    /// The id of the process: that of the owned child, or the stored id
    /// of an attached process with its bits read as an unsigned number.
    pub fn id(&self) -> (r: Option<u32>)
        ensures
            r == self.spec_id(),
            r is Some,
    {
        match self.handle {
            ChildHandle::Owned(pid) => Some(pid),
            ChildHandle::Attached(pid) => Some(unsigned(pid)),
        }
    }
}

} // verus!
