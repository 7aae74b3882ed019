use pedestal_rs::tokio_proc::status::{wait_to_exit, ExitStatus, WaitStatus, FALLBACK_STATUS, SIGKILL};

#[test]
fn exit_with_code_zero_is_success() {
    let status = wait_to_exit(WaitStatus::Exited(42, 0));
    assert_eq!(status, ExitStatus::from_raw(0));
    assert!(status.success());
    assert_eq!(status.code(), Some(0));
    assert_eq!(status.signal(), None);
}

#[test]
fn kill_signal_is_reported() {
    let status = wait_to_exit(WaitStatus::Signaled(42, SIGKILL, false));
    assert_eq!(status.into_raw(), 9);
    assert!(!status.success());
    assert_eq!(status.signal(), Some(9));
    assert_eq!(status.code(), None);
}

#[test]
fn outcomes_without_an_end_give_the_fallback() {
    assert_eq!(wait_to_exit(WaitStatus::StillAlive).into_raw(), FALLBACK_STATUS);
    assert_eq!(wait_to_exit(WaitStatus::Continued(7)).into_raw(), 1);
    assert_eq!(wait_to_exit(WaitStatus::PtraceSyscall(7)).into_raw(), 1);
    assert!(!wait_to_exit(WaitStatus::StillAlive).success());
}

#[test]
fn status_through_the_translation_is_the_status_of_the_parent() {
    assert_eq!(wait_to_exit(WaitStatus::Exited(42, 0)).into_raw(), 0);
    assert_eq!(wait_to_exit(WaitStatus::Exited(42, 3)).into_raw(), 3 << 8);
    assert_eq!(wait_to_exit(WaitStatus::Exited(42, 255)).into_raw(), 0xff00);
    assert_eq!(wait_to_exit(WaitStatus::Signaled(42, 15, false)).into_raw(), 15);
    assert_eq!(wait_to_exit(WaitStatus::Signaled(42, 11, true)).into_raw(), 0x8b);
}

#[test]
fn exit_with_a_code_carries_the_code() {
    for code in [1, 2, 3, 9, 126, 127, 128, 255] {
        let status = wait_to_exit(WaitStatus::Exited(42, code));
        assert_eq!(status.into_raw(), 256 * code);
        assert_eq!(status.code(), Some(code));
        assert_eq!(status.signal(), None);
        assert!(!status.success());
    }
}

#[test]
fn kill_with_a_core_dump_names_the_signal() {
    let status = wait_to_exit(WaitStatus::Signaled(42, 11, true));
    assert!(!status.success());
    assert_eq!(status.signal(), Some(11));
    assert_eq!(status.code(), None);
    for signal in 1..=31 {
        let status = wait_to_exit(WaitStatus::Signaled(42, signal, false));
        assert_eq!(status.signal(), Some(signal));
        assert_eq!(status.code(), None);
        assert!(!status.success());
    }
}

#[test]
fn outcomes_that_a_system_reports() {
    assert!(WaitStatus::Exited(1, 0).is_valid());
    assert!(WaitStatus::Exited(1, 255).is_valid());
    assert!(!WaitStatus::Exited(1, 256).is_valid());
    assert!(!WaitStatus::Exited(1, -1).is_valid());
    assert!(WaitStatus::Signaled(1, 1, false).is_valid());
    assert!(WaitStatus::Signaled(1, 31, true).is_valid());
    assert!(!WaitStatus::Signaled(1, 0, false).is_valid());
    assert!(!WaitStatus::Signaled(1, 32, false).is_valid());
    assert!(WaitStatus::Stopped(1, 19).is_valid());
    assert!(!WaitStatus::Stopped(1, 0).is_valid());
    assert!(WaitStatus::PtraceEvent(1, 5, 1).is_valid());
    assert!(!WaitStatus::PtraceEvent(1, 99, 1).is_valid());
    assert!(WaitStatus::PtraceSyscall(1).is_valid());
    assert!(WaitStatus::Continued(1).is_valid());
    assert!(WaitStatus::StillAlive.is_valid());
}

#[test]
fn outcomes_that_no_system_reports_give_the_fallback() {
    for wait in [
        WaitStatus::Exited(1, 256),
        WaitStatus::Exited(1, 512),
        WaitStatus::Exited(1, -1),
        WaitStatus::Exited(1, i32::MIN),
        WaitStatus::Signaled(1, 0, false),
        WaitStatus::Signaled(1, 128, false),
        WaitStatus::Signaled(1, 137, true),
        WaitStatus::Signaled(1, -1, true),
        WaitStatus::Stopped(1, 0),
        WaitStatus::Stopped(1, 256),
        WaitStatus::PtraceEvent(1, 32, 1),
    ] {
        let status = wait_to_exit(wait);
        assert_eq!(status.into_raw(), FALLBACK_STATUS);
        assert!(!status.success());
    }
}

#[test]
fn success_is_the_exit_with_code_zero_alone() {
    assert!(wait_to_exit(WaitStatus::Exited(1, 0)).success());
    assert!(wait_to_exit(WaitStatus::Exited(-7, 0)).success());
    for code in [1, 2, 127, 128, 255, 256, 512, 65536, -1, -256, i32::MAX, i32::MIN] {
        assert!(!wait_to_exit(WaitStatus::Exited(1, code)).success());
    }
    for signal in [-128, -1, 0, 1, 9, 31, 32, 64, 127, 128, 256, 384] {
        assert!(!wait_to_exit(WaitStatus::Signaled(1, signal, false)).success());
        assert!(!wait_to_exit(WaitStatus::Signaled(1, signal, true)).success());
        assert!(!wait_to_exit(WaitStatus::Stopped(1, signal)).success());
        assert!(!wait_to_exit(WaitStatus::PtraceEvent(1, signal, 0)).success());
    }
    assert!(!wait_to_exit(WaitStatus::PtraceSyscall(1)).success());
    assert!(!wait_to_exit(WaitStatus::Continued(1)).success());
    assert!(!wait_to_exit(WaitStatus::StillAlive).success());
}

#[test]
fn stop_and_trace_event_give_the_signal() {
    assert_eq!(wait_to_exit(WaitStatus::Stopped(1, 19)).into_raw(), 19);
    assert_eq!(wait_to_exit(WaitStatus::PtraceEvent(1, 5, 2)).into_raw(), 5);
}

#[test]
fn process_of_an_outcome() {
    assert_eq!(WaitStatus::Exited(42, 0).pid(), Some(42));
    assert_eq!(WaitStatus::Signaled(43, 9, true).pid(), Some(43));
    assert_eq!(WaitStatus::Stopped(44, 19).pid(), Some(44));
    assert_eq!(WaitStatus::PtraceEvent(45, 5, 1).pid(), Some(45));
    assert_eq!(WaitStatus::PtraceSyscall(46).pid(), Some(46));
    assert_eq!(WaitStatus::Continued(47).pid(), Some(47));
    assert_eq!(WaitStatus::StillAlive.pid(), None);
    assert!(WaitStatus::Exited(42, 0).is_terminal());
    assert!(WaitStatus::Signaled(42, 9, false).is_terminal());
    assert!(!WaitStatus::Stopped(42, 19).is_terminal());
    assert!(!WaitStatus::StillAlive.is_terminal());
}

#[test]
fn reading_a_status() {
    assert_eq!(ExitStatus::from_raw(0x0300).code(), Some(3));
    assert_eq!(ExitStatus::from_raw(0x0300).signal(), None);
    assert_eq!(ExitStatus::from_raw(0x7f).signal(), None);
    assert_eq!(ExitStatus::from_raw(0x7f).code(), None);
    assert_eq!(ExitStatus::from_raw(0x89).signal(), Some(9));
    assert_eq!(ExitStatus::from_raw(-1).signal(), None);
    assert_eq!(ExitStatus::from_raw(-256).code(), Some(255));
    assert_eq!(ExitStatus::from_raw(126).signal(), Some(126));
    assert_eq!(FALLBACK_STATUS, 1);
    assert_eq!(SIGKILL, 9);
}
