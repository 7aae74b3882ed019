//! What a working directory holds, and how the two sides of each pipe are
//! opened.

use vstd::prelude::*;
use crate::tokio_proc::os::Access;
use crate::tokio_proc::os::Marker;
use crate::tokio_proc::os::StreamKind;
use crate::tokio_proc::os::StreamMode;

verus! {

/// The permission bits of a fresh pipe: read, write and execute for the
/// owner, nothing for anyone else.
pub const FIFO_MODE: u32 = 0o700;

/// The seconds that the guard sleeps between two looks at the held
/// process.
pub const POLL_SECONDS: u64 = 1;

pub open spec fn spec_pipe_name(kind: StreamKind) -> Seq<char> {
    match kind {
        StreamKind::Stdin => "stdin"@,
        StreamKind::Stdout => "stdout"@,
        StreamKind::Stderr => "stderr"@,
    }
}

/// The name, in the working directory, of the pipe of a stream.
pub fn pipe_name(kind: StreamKind) -> (name: &'static str)
    ensures
        name@ == spec_pipe_name(kind),
{
    match kind {
        StreamKind::Stdin => "stdin",
        StreamKind::Stdout => "stdout",
        StreamKind::Stderr => "stderr",
    }
}

/// The name, in the working directory, of the file that holds the id of
/// the held process as text.
pub fn pid_file_name() -> (name: &'static str)
    ensures
        name@ == ".pid"@,
{
    ".pid"
}

/// The name, in the working directory, of the file that holds the id of
/// the guard as text.
pub fn guard_file_name() -> (name: &'static str)
    ensures
        name@ == ".gpid"@,
{
    ".gpid"
}

pub open spec fn spec_marker_name(marker: Marker) -> Seq<char> {
    match marker {
        Marker::ForkRequest => "FORK_REQ"@,
        Marker::Guard => "FORK_ON"@,
    }
}

/// The name of the environment variable that carries a marker. Its value
/// is the working directory.
pub fn marker_name(marker: Marker) -> (name: &'static str)
    ensures
        name@ == spec_marker_name(marker),
{
    match marker {
        Marker::ForkRequest => "FORK_REQ",
        Marker::Guard => "FORK_ON",
    }
}

pub open spec fn spec_controller_access(kind: StreamKind) -> Access {
    match kind {
        StreamKind::Stdin => Access::Write,
        StreamKind::Stdout => Access::Read,
        StreamKind::Stderr => Access::Read,
    }
}

pub open spec fn spec_subject_access(kind: StreamKind) -> Access {
    match kind {
        StreamKind::Stdin => Access::Read,
        StreamKind::Stdout => Access::Write,
        StreamKind::Stderr => Access::Write,
    }
}

/// How the controller opens its end of a stream's pipe at a spawn: it
/// writes what the held process reads, and reads what it writes.
pub fn controller_access(kind: StreamKind) -> (access: Access)
    ensures
        access == spec_controller_access(kind),
{
    match kind {
        StreamKind::Stdin => Access::Write,
        StreamKind::Stdout => Access::Read,
        StreamKind::Stderr => Access::Read,
    }
}

/// How the held process's end of a stream's pipe is opened.
pub fn subject_access(kind: StreamKind) -> (access: Access)
    ensures
        access == spec_subject_access(kind),
{
    match kind {
        StreamKind::Stdin => Access::Read,
        StreamKind::Stdout => Access::Write,
        StreamKind::Stderr => Access::Write,
    }
}

/// How a controller that attaches later, or the guard, opens its end of a
/// stream's pipe: as at a spawn, but that the input pipe is made if it is
/// gone.
pub open spec fn spec_reopen_access(kind: StreamKind) -> Access {
    match kind {
        StreamKind::Stdin => Access::Create,
        StreamKind::Stdout => Access::Read,
        StreamKind::Stderr => Access::Read,
    }
}

pub fn reopen_access(kind: StreamKind) -> (access: Access)
    ensures
        access == spec_reopen_access(kind),
{
    match kind {
        StreamKind::Stdin => Access::Create,
        StreamKind::Stdout => Access::Read,
        StreamKind::Stderr => Access::Read,
    }
}

/// The streams whose controller's ends are opened in the background at a
/// spawn, in the order in which they are opened. It is the order in which
/// the held process's ends are opened, for every open waits for the open
/// of the other end.
pub open spec fn spec_controller_kinds(mode: StreamMode) -> Seq<StreamKind> {
    match mode {
        StreamMode::WithStderr => seq![StreamKind::Stdin, StreamKind::Stdout, StreamKind::Stderr],
        StreamMode::NoStderr => seq![StreamKind::Stdin, StreamKind::Stdout],
    }
}

/// The streams whose controller's ends are opened in the background at a
/// spawn, in the order in which they are opened.
pub fn controller_kinds(mode: StreamMode) -> (kinds: Vec<StreamKind>)
    ensures
        kinds@ == spec_controller_kinds(mode),
{
    let mut kinds: Vec<StreamKind> = Vec::new();
    kinds.push(StreamKind::Stdin);
    kinds.push(StreamKind::Stdout);
    match mode {
        StreamMode::WithStderr => {
            kinds.push(StreamKind::Stderr);
        },
        StreamMode::NoStderr => {},
    }
    assert(kinds@ =~= spec_controller_kinds(mode));
    kinds
}

pub open spec fn spec_reads(access: Access) -> bool {
    access == Access::Read
}

/// The two ends of every pipe face each other: of the controller and the
/// held process, one reads the pipe and the other writes it, at a spawn
/// and at a later attach.
pub proof fn lemma_ends_face_each_other(kind: StreamKind)
    ensures
        spec_reads(spec_controller_access(kind)) != spec_reads(spec_subject_access(kind)),
        spec_reads(spec_reopen_access(kind)) != spec_reads(spec_subject_access(kind)),
        spec_reads(spec_subject_access(kind)) <==> kind == StreamKind::Stdin,
{
}

} // verus!
