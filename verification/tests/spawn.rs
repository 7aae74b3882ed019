use pedestal_rs::tokio_proc::child::{ChildHandle, ChildWrapper, Endpoint};
use pedestal_rs::tokio_proc::daemon::{Lifecycle, ProcessHandle};
use pedestal_rs::tokio_proc::error::ProcError;
use pedestal_rs::tokio_proc::layout::FIFO_MODE;
use pedestal_rs::tokio_proc::os::{
    Access, Marker, OsCall, OsReply, Platform, StreamKind, StreamMode,
};
use pedestal_rs::tokio_proc::spawn::{Spawn, SpawnState, MAX_SPAWN_CALLS};
use pedestal_rs::tokio_proc::status::ExitStatus;

fn hooked() -> Lifecycle {
    let mut lifecycle = Lifecycle::new();
    let _ = ProcessHandle::fork_hook(&mut lifecycle, Platform::Posix, None, None);
    lifecycle
}

fn drive(mut spawn: Spawn, replies: Vec<OsReply>) -> (Vec<OsCall>, Spawn) {
    let mut calls = Vec::new();
    for reply in replies.iter() {
        match spawn.pending() {
            Some(call) => calls.push(call),
            None => break,
        }
        spawn = spawn.advance(reply);
    }
    if let Some(call) = spawn.pending() {
        calls.push(call);
    }
    (calls, spawn)
}

#[test]
fn spawn_with_fresh_directory() {
    let replies = vec![
        OsReply::Exists(false),
        OsReply::Exists(false),
        OsReply::Exists(false),
        OsReply::Unit,
        OsReply::Unit,
        OsReply::Unit,
        OsReply::Unit,
        OsReply::Unit,
        OsReply::Unit,
        OsReply::Unit,
        OsReply::Pid(4242),
        OsReply::Unit,
    ];
    let (calls, spawn) = drive(ChildWrapper::spawn(Platform::Posix), replies);
    assert_eq!(
        calls,
        vec![
            OsCall::ProbePipe(StreamKind::Stdin),
            OsCall::ProbePipe(StreamKind::Stdout),
            OsCall::ProbePipe(StreamKind::Stderr),
            OsCall::MakeFifo(StreamKind::Stdin, 0o700),
            OsCall::MakeFifo(StreamKind::Stdout, 0o700),
            OsCall::MakeFifo(StreamKind::Stderr, 0o700),
            OsCall::OpenControllerEnds(StreamMode::WithStderr),
            OsCall::OpenSubjectEnd(StreamKind::Stdin, Access::Read),
            OsCall::OpenSubjectEnd(StreamKind::Stdout, Access::Write),
            OsCall::OpenSubjectEnd(StreamKind::Stderr, Access::Write),
            OsCall::Launch(StreamMode::WithStderr),
            OsCall::JoinControllerEnds,
        ]
    );
    assert_eq!(FIFO_MODE, 448);
    let wrapper = spawn.result().expect("over").expect("spawned");
    assert_eq!(wrapper.handle, ChildHandle::Owned(4242));
    assert_eq!(wrapper.id(), Some(4242));
    assert_eq!(wrapper.stdin, Some(Endpoint { kind: StreamKind::Stdin, access: Access::Write }));
    assert_eq!(wrapper.stdout, Some(Endpoint { kind: StreamKind::Stdout, access: Access::Read }));
    assert_eq!(wrapper.stderr, Some(Endpoint { kind: StreamKind::Stderr, access: Access::Read }));
}

#[test]
fn spawn_removes_stale_pipes() {
    let replies = vec![
        OsReply::Exists(true),
        OsReply::Unit,
        OsReply::Exists(false),
        OsReply::Exists(true),
        OsReply::Unit,
    ];
    let (calls, spawn) = drive(ChildWrapper::spawn(Platform::Posix), replies);
    assert_eq!(
        calls,
        vec![
            OsCall::ProbePipe(StreamKind::Stdin),
            OsCall::RemovePipe(StreamKind::Stdin),
            OsCall::ProbePipe(StreamKind::Stdout),
            OsCall::ProbePipe(StreamKind::Stderr),
            OsCall::RemovePipe(StreamKind::Stderr),
            OsCall::MakeFifo(StreamKind::Stdin, 0o700),
        ]
    );
    assert_eq!(spawn.result(), None);
}

#[test]
fn spawn_noerr_makes_two_pipes() {
    let replies = vec![
        OsReply::Exists(false),
        OsReply::Exists(false),
        OsReply::Exists(true),
        OsReply::Unit,
        OsReply::Unit,
        OsReply::Unit,
        OsReply::Unit,
        OsReply::Unit,
        OsReply::Unit,
        OsReply::Pid(7),
        OsReply::Unit,
    ];
    let (calls, spawn) = drive(ChildWrapper::spawn_noerr(Platform::Posix), replies);
    assert_eq!(
        calls,
        vec![
            OsCall::ProbePipe(StreamKind::Stdin),
            OsCall::ProbePipe(StreamKind::Stdout),
            OsCall::ProbePipe(StreamKind::Stderr),
            OsCall::RemovePipe(StreamKind::Stderr),
            OsCall::MakeFifo(StreamKind::Stdin, 0o700),
            OsCall::MakeFifo(StreamKind::Stdout, 0o700),
            OsCall::OpenControllerEnds(StreamMode::NoStderr),
            OsCall::OpenSubjectEnd(StreamKind::Stdin, Access::Read),
            OsCall::OpenSubjectEnd(StreamKind::Stdout, Access::Write),
            OsCall::Launch(StreamMode::NoStderr),
            OsCall::JoinControllerEnds,
        ]
    );
    let wrapper = spawn.result().expect("over").expect("spawned");
    assert_eq!(wrapper.handle, ChildHandle::Owned(7));
    assert!(wrapper.stdin.is_some());
    assert!(wrapper.stdout.is_some());
    assert_eq!(wrapper.stderr, None);
}

#[test]
fn spawn_gives_up_when_a_pipe_cannot_be_made() {
    let replies = vec![
        OsReply::Exists(false),
        OsReply::Exists(false),
        OsReply::Exists(false),
        OsReply::Unit,
        OsReply::Failed(13),
        OsReply::Unit,
        OsReply::Pid(1),
    ];
    let (calls, spawn) = drive(ChildWrapper::spawn(Platform::Posix), replies);
    assert_eq!(calls.len(), 5);
    assert!(!calls.contains(&OsCall::Launch(StreamMode::WithStderr)));
    assert_eq!(spawn.state, SpawnState::Failed(ProcError::Os(13)));
    assert_eq!(spawn.result(), Some(Err(ProcError::Os(13))));
    assert_eq!(spawn.pending(), None);
}

#[test]
fn spawn_gives_up_when_a_stale_pipe_stays() {
    let replies = vec![OsReply::Exists(true), OsReply::Failed(1)];
    let (_, spawn) = drive(ChildWrapper::spawn(Platform::Posix), replies);
    assert_eq!(spawn.result(), Some(Err(ProcError::Os(1))));
}

#[test]
fn spawn_gives_up_when_the_command_is_not_found() {
    let mut replies = vec![OsReply::Exists(false), OsReply::Exists(false), OsReply::Exists(false)];
    for _ in 0..7 {
        replies.push(OsReply::Unit);
    }
    replies.push(OsReply::Failed(2));
    let (calls, spawn) = drive(ChildWrapper::spawn(Platform::Posix), replies);
    assert_eq!(calls.last(), Some(&OsCall::Launch(StreamMode::WithStderr)));
    assert_eq!(spawn.result(), Some(Err(ProcError::Os(2))));
}

#[test]
fn spawn_takes_a_failed_probe_for_an_absent_pipe() {
    let (calls, _) = drive(ChildWrapper::spawn(Platform::Posix), vec![OsReply::Failed(13)]);
    assert_eq!(
        calls,
        vec![OsCall::ProbePipe(StreamKind::Stdin), OsCall::ProbePipe(StreamKind::Stdout)]
    );
}

#[test]
fn spawn_refuses_a_reply_that_answers_nothing() {
    let (_, spawn) = drive(ChildWrapper::spawn(Platform::Posix), vec![OsReply::Pid(3)]);
    assert_eq!(spawn.result(), Some(Err(ProcError::UnexpectedReply)));
    let (_, spawn) = drive(
        ChildWrapper::spawn(Platform::Posix),
        vec![OsReply::Exists(true), OsReply::Running],
    );
    assert_eq!(spawn.result(), Some(Err(ProcError::UnexpectedReply)));
}

#[test]
fn spawn_is_over_after_a_bounded_number_of_calls() {
    let mut replies = Vec::new();
    for _ in 0..3 {
        replies.push(OsReply::Exists(true));
        replies.push(OsReply::Unit);
    }
    for _ in 0..7 {
        replies.push(OsReply::Unit);
    }
    replies.push(OsReply::Pid(5));
    replies.push(OsReply::Unit);
    replies.push(OsReply::Pid(6));
    replies.push(OsReply::Status(ExitStatus::from_raw(0)));
    replies.push(OsReply::Unit);
    let lifecycle = hooked();
    let (calls, spawn) = drive(ChildWrapper::spawn_hold(Platform::Posix, &lifecycle), replies);
    assert_eq!(calls.len(), MAX_SPAWN_CALLS);
    assert_eq!(calls[15], OsCall::SpawnSelf(Marker::ForkRequest));
    assert_eq!(calls[16], OsCall::WaitSelf);
    assert_eq!(spawn.state, SpawnState::Ready(5));
}

fn replies_up_to_join(pid: u32) -> Vec<OsReply> {
    let mut replies = vec![OsReply::Exists(false), OsReply::Exists(false), OsReply::Exists(false)];
    for _ in 0..7 {
        replies.push(OsReply::Unit);
    }
    replies.push(OsReply::Pid(pid));
    replies.push(OsReply::Unit);
    replies
}

#[test]
fn spawn_hold_without_the_hook_is_unsupported() {
    let lifecycle = Lifecycle::new();
    assert!(!lifecycle.hook_installed());
    let (calls, spawn) =
        drive(ChildWrapper::spawn_hold(Platform::Posix, &lifecycle), replies_up_to_join(9));
    assert_eq!(calls.last(), Some(&OsCall::JoinControllerEnds));
    let error = spawn.result().expect("over").expect_err("unsupported");
    assert_eq!(error, ProcError::HookNotInstalled);
    assert!(error.is_unsupported());
    assert_eq!(
        error.message(),
        "put `ProcessHandle::fork_hook` at earliest call in `main()` to use this feature"
    );
}

#[test]
fn spawn_hold_noerr_starts_the_forking_instance() {
    let lifecycle = hooked();
    let mut replies = vec![OsReply::Exists(false), OsReply::Exists(false), OsReply::Exists(false)];
    for _ in 0..5 {
        replies.push(OsReply::Unit);
    }
    replies.push(OsReply::Pid(11));
    replies.push(OsReply::Unit);
    let (calls, spawn) =
        drive(ChildWrapper::spawn_hold_noerr(Platform::Posix, &lifecycle), replies);
    assert_eq!(calls.last(), Some(&OsCall::SpawnSelf(Marker::ForkRequest)));
    assert_eq!(spawn.state, SpawnState::HoldSpawn(11));
    let spawn = spawn.advance(&OsReply::Pid(12));
    assert_eq!(spawn.pending(), Some(OsCall::WaitSelf));
    let spawn = spawn.advance(&OsReply::Status(ExitStatus::from_raw(0)));
    let wrapper = spawn.result().expect("over").expect("held");
    assert_eq!(wrapper.id(), Some(11));
    assert_eq!(wrapper.stderr, None);
}

#[test]
fn spawn_hold_reports_the_failure_of_the_forking_instance() {
    let lifecycle = hooked();
    let mut replies = replies_up_to_join(9);
    replies.push(OsReply::Failed(11));
    let (_, spawn) = drive(ChildWrapper::spawn_hold(Platform::Posix, &lifecycle), replies);
    assert_eq!(spawn.result(), Some(Err(ProcError::Os(11))));
}

#[test]
fn spawn_without_named_pipes() {
    for spawn in [
        ChildWrapper::spawn(Platform::Other),
        ChildWrapper::spawn_noerr(Platform::Other),
        ChildWrapper::spawn_hold(Platform::Other, &Lifecycle::new()),
        ChildWrapper::spawn_hold_noerr(Platform::Other, &Lifecycle::new()),
    ] {
        let (calls, spawn) = drive(spawn, vec![OsReply::Pid(21)]);
        assert_eq!(calls, vec![OsCall::LaunchPiped]);
        let wrapper = spawn.result().expect("over").expect("spawned");
        assert_eq!(wrapper.handle, ChildHandle::Owned(21));
        assert!(wrapper.stdin.is_some());
        assert!(wrapper.stdout.is_some());
        assert!(wrapper.stderr.is_none());
    }
}

#[test]
fn controller_ends_are_started_before_the_subject_ends() {
    let (calls, _) = drive(ChildWrapper::spawn(Platform::Posix), replies_up_to_join(3));
    let started = calls
        .iter()
        .position(|call| *call == OsCall::OpenControllerEnds(StreamMode::WithStderr))
        .expect("started");
    let joined =
        calls.iter().position(|call| *call == OsCall::JoinControllerEnds).expect("joined");
    for (at, call) in calls.iter().enumerate() {
        if matches!(call, OsCall::OpenSubjectEnd(_, _) | OsCall::Launch(_)) {
            assert!(started < at && at < joined);
        }
    }
}

#[test]
fn calls_that_may_block() {
    assert!(OsCall::OpenSubjectEnd(StreamKind::Stdin, Access::Read).may_block());
    assert!(OsCall::JoinControllerEnds.may_block());
    assert!(!OsCall::OpenControllerEnds(StreamMode::WithStderr).may_block());
    assert!(!OsCall::MakeFifo(StreamKind::Stdin, FIFO_MODE).may_block());
    assert!(!OsCall::Fork.may_block());
}
