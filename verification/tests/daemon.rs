use pedestal_rs::tokio_proc::daemon::{
    ForkState, Guard, GuardState, HookRole, Lifecycle, ProcessHandle,
};
use pedestal_rs::tokio_proc::error::ProcError;
use pedestal_rs::tokio_proc::os::{
    Access, Marker, OsCall, OsReply, Platform, StreamKind, WaitMode,
};
use pedestal_rs::tokio_proc::status::WaitStatus;

#[test]
fn hook_of_an_ordinary_instance() {
    let mut lifecycle = Lifecycle::new();
    let role = ProcessHandle::fork_hook(&mut lifecycle, Platform::Posix, None, None);
    assert!(matches!(role, HookRole::Normal));
    assert!(lifecycle.hook_installed());
}

#[test]
fn hook_of_the_forking_instance() {
    let mut lifecycle = Lifecycle::new();
    let role = ProcessHandle::fork_hook(
        &mut lifecycle,
        Platform::Posix,
        Some(String::from("/srv/job")),
        None,
    );
    match role {
        HookRole::Fork(dir) => assert_eq!(dir, "/srv/job"),
        _ => panic!("not the forking instance"),
    }
    assert!(lifecycle.hook_installed());
}

#[test]
fn hook_of_the_guard() {
    let mut lifecycle = Lifecycle::new();
    let role = ProcessHandle::fork_hook(
        &mut lifecycle,
        Platform::Posix,
        None,
        Some(String::from("/srv/job")),
    );
    match role {
        HookRole::Guard(handle) => assert_eq!(handle.path(), "/srv/job"),
        _ => panic!("not the guard"),
    }
}

#[test]
fn hook_puts_the_request_to_fork_first() {
    let mut lifecycle = Lifecycle::new();
    let role = ProcessHandle::fork_hook(
        &mut lifecycle,
        Platform::Posix,
        Some(String::from("/a")),
        Some(String::from("/b")),
    );
    match role {
        HookRole::Fork(dir) => assert_eq!(dir, "/a"),
        _ => panic!("not the forking instance"),
    }
}

#[test]
fn hook_does_nothing_where_it_cannot_daemonize() {
    let mut lifecycle = Lifecycle::new();
    let role = ProcessHandle::fork_hook(
        &mut lifecycle,
        Platform::Other,
        Some(String::from("/a")),
        Some(String::from("/b")),
    );
    assert!(matches!(role, HookRole::Normal));
    assert!(!lifecycle.hook_installed());
}

#[test]
fn process_handle_keeps_its_path() {
    let handle = ProcessHandle::new(String::from("work/dir"));
    assert_eq!(handle.path(), "work/dir");
}

#[test]
fn fork_parent_waits_for_its_child_and_exits() {
    let fork = ProcessHandle::fork();
    assert_eq!(fork.pending(), Some(OsCall::Fork));
    let fork = fork.advance(&OsReply::ForkParent(321));
    assert_eq!(fork.pending(), Some(OsCall::WaitPid(321, WaitMode::Blocking)));
    let fork = fork.advance(&OsReply::Waited(WaitStatus::Exited(321, 0)));
    assert_eq!(fork.state, ForkState::Exit);
    assert_eq!(fork.pending(), None);
    assert_eq!(fork.aborted(), None);
}

#[test]
fn fork_child_starts_the_guard_and_exits() {
    let fork = ProcessHandle::fork().advance(&OsReply::ForkChild);
    assert_eq!(fork.pending(), Some(OsCall::NewSession));
    let fork = fork.advance(&OsReply::Unit);
    assert_eq!(fork.pending(), Some(OsCall::SpawnSelf(Marker::Guard)));
    let fork = fork.advance(&OsReply::Pid(654));
    assert_eq!(fork.pending(), Some(OsCall::WriteGuardFile(654)));
    assert_eq!(fork.advance(&OsReply::Unit).state, ForkState::Exit);
    assert_eq!(fork.advance(&OsReply::Failed(28)).state, ForkState::Exit);
}

#[test]
fn fork_that_fails_is_fatal() {
    let fork = ProcessHandle::fork().advance(&OsReply::Failed(12));
    assert_eq!(fork.state, ForkState::Aborted(ProcError::Os(12)));
    assert_eq!(fork.pending(), None);
    assert_eq!(fork.aborted(), Some(ProcError::Os(12)));
    assert_eq!(fork.advance(&OsReply::ForkChild).state, ForkState::Aborted(ProcError::Os(12)));
}

#[test]
fn fork_child_aborts_when_nothing_can_be_set_up() {
    let child = ProcessHandle::fork().advance(&OsReply::ForkChild);
    assert_eq!(child.advance(&OsReply::Failed(1)).aborted(), Some(ProcError::Os(1)));
    let session = child.advance(&OsReply::Unit);
    assert_eq!(session.advance(&OsReply::Failed(2)).aborted(), Some(ProcError::Os(2)));
    let parent = ProcessHandle::fork().advance(&OsReply::ForkParent(5));
    assert_eq!(parent.advance(&OsReply::Failed(10)).aborted(), Some(ProcError::Os(10)));
}

fn guard() -> Guard {
    ProcessHandle::new(String::from("/srv/job")).run()
}

#[test]
fn guard_watches_until_the_process_has_ended() {
    let guard = guard();
    assert_eq!(guard.pending(), Some(OsCall::ReadPidFile));
    let guard = guard.advance(&OsReply::Text(b"4242".to_vec()));
    assert_eq!(guard.pending(), Some(OsCall::WaitPid(4242, WaitMode::NoHang)));
    let guard = guard.advance(&OsReply::Waited(WaitStatus::StillAlive));
    assert_eq!(guard.pending(), Some(OsCall::OpenControllerEnd(StreamKind::Stdin, Access::Create)));
    let guard = guard.advance(&OsReply::Unit);
    assert_eq!(guard.pending(), Some(OsCall::OpenControllerEnd(StreamKind::Stdout, Access::Read)));
    let guard = guard.advance(&OsReply::Unit);
    assert_eq!(guard.pending(), Some(OsCall::OpenControllerEnd(StreamKind::Stderr, Access::Read)));
    let mut guard = guard.advance(&OsReply::Unit);
    for _ in 0..3 {
        assert_eq!(guard.pending(), Some(OsCall::WaitPid(4242, WaitMode::NoHang)));
        assert_eq!(guard.result(), None);
        guard = guard.advance(&OsReply::Waited(WaitStatus::StillAlive));
        assert_eq!(guard.pending(), Some(OsCall::Sleep(1)));
        guard = guard.advance(&OsReply::Unit);
    }
    let guard = guard.advance(&OsReply::Waited(WaitStatus::Exited(4242, 0)));
    assert_eq!(guard.state, GuardState::Finished);
    assert_eq!(guard.pending(), None);
    assert_eq!(guard.result(), Some(Ok(())));
}

#[test]
fn guard_stays_while_the_process_lives() {
    let polling = guard()
        .advance(&OsReply::Text(b"4242".to_vec()))
        .advance(&OsReply::Waited(WaitStatus::StillAlive))
        .advance(&OsReply::Unit)
        .advance(&OsReply::Unit)
        .advance(&OsReply::Unit);
    assert_eq!(polling.state, GuardState::Poll(4242));
    for wait in [
        WaitStatus::StillAlive,
        WaitStatus::Continued(4242),
        WaitStatus::Stopped(4242, 19),
        WaitStatus::PtraceEvent(4242, 5, 1),
        WaitStatus::PtraceSyscall(4242),
    ] {
        let next = polling.advance(&OsReply::Waited(wait));
        assert_eq!(next.state, GuardState::Sleep(4242));
        assert_eq!(next.result(), None);
        assert_eq!(next.pending(), Some(OsCall::Sleep(1)));
    }
    let probing = guard().advance(&OsReply::Text(b"4242".to_vec()));
    let opening = probing.advance(&OsReply::Waited(WaitStatus::Stopped(4242, 19)));
    assert_eq!(opening.state, GuardState::Open(4242, StreamKind::Stdin));
    assert_eq!(
        polling.advance(&OsReply::Waited(WaitStatus::Signaled(4242, 15, false))).result(),
        Some(Ok(()))
    );
}

#[test]
fn guard_watches_a_process_of_another_parent() {
    let probing = guard().advance(&OsReply::Text(b"4242".to_vec()));
    let asking = probing.advance(&OsReply::Failed(10));
    assert_eq!(asking.state, GuardState::ProbeLook(4242));
    assert_eq!(asking.pending(), Some(OsCall::Signal(4242, 0)));
    let opening = asking.advance(&OsReply::Unit);
    assert_eq!(opening.state, GuardState::Open(4242, StreamKind::Stdin));
    assert_eq!(asking.advance(&OsReply::Failed(3)).result(), Some(Ok(())));
    assert_eq!(asking.advance(&OsReply::Failed(22)).result(), Some(Err(ProcError::Os(22))));

    let polling =
        opening.advance(&OsReply::Unit).advance(&OsReply::Unit).advance(&OsReply::Unit);
    assert_eq!(polling.state, GuardState::Poll(4242));
    let asking = polling.advance(&OsReply::Failed(10));
    assert_eq!(asking.state, GuardState::PollLook(4242));
    assert_eq!(asking.pending(), Some(OsCall::Signal(4242, 0)));
    assert_eq!(asking.result(), None);
    for looked in [OsReply::Unit, OsReply::Failed(1)] {
        let sleeping = asking.advance(&looked);
        assert_eq!(sleeping.state, GuardState::Sleep(4242));
        assert_eq!(sleeping.advance(&OsReply::Unit).state, GuardState::Poll(4242));
    }
    assert_eq!(asking.advance(&OsReply::Failed(3)).state, GuardState::Finished);
    assert_eq!(
        asking.advance(&OsReply::Waited(WaitStatus::StillAlive)).result(),
        Some(Err(ProcError::UnexpectedReply))
    );
}

#[test]
fn guard_leaves_when_the_process_has_ended_already() {
    let guard = guard()
        .advance(&OsReply::Text(b"4242".to_vec()))
        .advance(&OsReply::Waited(WaitStatus::Signaled(4242, 9, false)));
    assert_eq!(guard.result(), Some(Ok(())));
}

#[test]
fn guard_needs_a_readable_pid_file() {
    assert_eq!(guard().advance(&OsReply::Failed(2)).result(), Some(Err(ProcError::PidFileUnreadable)));
    assert_eq!(
        guard().advance(&OsReply::Text(b"4242\n".to_vec())).result(),
        Some(Err(ProcError::PidFileUnreadable))
    );
    assert_eq!(
        guard().advance(&OsReply::Text(Vec::new())).result(),
        Some(Err(ProcError::PidFileUnreadable))
    );
    assert_eq!(ProcError::PidFileUnreadable.os_code(), Some(32));
}

#[test]
fn guard_goes_on_without_the_error_stream() {
    let guard = guard()
        .advance(&OsReply::Text(b"7".to_vec()))
        .advance(&OsReply::Waited(WaitStatus::StillAlive))
        .advance(&OsReply::Unit)
        .advance(&OsReply::Unit)
        .advance(&OsReply::Failed(2));
    assert_eq!(guard.state, GuardState::Poll(7));
}

#[test]
fn guard_gives_up_when_a_pipe_or_a_look_fails() {
    let probing = guard().advance(&OsReply::Text(b"7".to_vec()));
    assert_eq!(probing.advance(&OsReply::Failed(13)).result(), Some(Err(ProcError::Os(13))));
    let opening = probing.advance(&OsReply::Waited(WaitStatus::StillAlive));
    assert_eq!(opening.advance(&OsReply::Failed(13)).result(), Some(Err(ProcError::Os(13))));
    let second = opening.advance(&OsReply::Unit);
    assert_eq!(second.advance(&OsReply::Failed(13)).result(), Some(Err(ProcError::Os(13))));
    let polling = second.advance(&OsReply::Unit).advance(&OsReply::Unit);
    assert_eq!(polling.advance(&OsReply::Failed(13)).result(), Some(Err(ProcError::Os(13))));
}
