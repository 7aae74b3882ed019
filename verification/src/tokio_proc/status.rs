//! Wait outcomes as the operating system reports them, and the exit status
//! that the supervisor hands to its callers.

use vstd::prelude::*;

verus! {

/// The signal that ends a process at once and cannot be caught.
pub const SIGKILL: i32 = 9;

/// The status reported for a wait outcome that says nothing about how the
/// process ended. It never reads as success.
pub const FALLBACK_STATUS: i32 = 1;

/// What a wait call reported for a process. The first field of every
/// variant but the last is the process id.
#[derive(Clone, Copy, Debug, PartialEq, Eq, Structural)]
pub enum WaitStatus {
    /// The process left normally with the given exit code.
    Exited(i32, i32),
    /// The process was killed by the given signal; the flag tells whether
    /// it left a core dump.
    Signaled(i32, i32, bool),
    /// The process was stopped by the given signal.
    Stopped(i32, i32),
    /// The traced process was stopped by the given signal, for the given
    /// trace event.
    PtraceEvent(i32, i32, i32),
    /// The traced process entered or left a system call.
    PtraceSyscall(i32),
    /// The process was resumed.
    Continued(i32),
    /// Nothing to report: the process is still running.
    StillAlive,
}

/// Whether a number is that of a signal.
pub open spec fn spec_is_signal(signal: i32) -> bool {
    1 <= signal <= 31
}

impl WaitStatus {
    /// Whether the outcome is one that an operating system reports: its
    /// signal is a signal, and its exit code fits a byte.
    pub open spec fn spec_valid(self) -> bool {
        match self {
            WaitStatus::Exited(_, code) => 0 <= code <= 255,
            WaitStatus::Signaled(_, signal, _) => spec_is_signal(signal),
            WaitStatus::Stopped(_, signal) => spec_is_signal(signal),
            WaitStatus::PtraceEvent(_, signal, _) => spec_is_signal(signal),
            _ => true,
        }
    }

    /// Whether the outcome is one that an operating system reports.
    pub fn is_valid(&self) -> (r: bool)
        ensures
            r == self.spec_valid(),
    {
        match self {
            WaitStatus::Exited(_, code) => 0 <= *code && *code <= 255,
            WaitStatus::Signaled(_, signal, _) => 1 <= *signal && *signal <= 31,
            WaitStatus::Stopped(_, signal) => 1 <= *signal && *signal <= 31,
            WaitStatus::PtraceEvent(_, signal, _) => 1 <= *signal && *signal <= 31,
            _ => true,
        }
    }

    /// The process that the outcome is about, if it names one.
    pub open spec fn spec_pid(self) -> Option<i32> {
        match self {
            WaitStatus::Exited(pid, _) => Some(pid),
            WaitStatus::Signaled(pid, _, _) => Some(pid),
            WaitStatus::Stopped(pid, _) => Some(pid),
            WaitStatus::PtraceEvent(pid, _, _) => Some(pid),
            WaitStatus::PtraceSyscall(pid) => Some(pid),
            WaitStatus::Continued(pid) => Some(pid),
            WaitStatus::StillAlive => None,
        }
    }

    /// Whether the outcome says that the process has ended.
    pub open spec fn spec_is_terminal(self) -> bool {
        self is Exited || self is Signaled
    }

    /// The process that the outcome is about; `None` only for
    /// `StillAlive`.
    pub fn pid(&self) -> (r: Option<i32>)
        ensures
            r == self.spec_pid(),
            r is None <==> *self == WaitStatus::StillAlive,
    {
        match self {
            WaitStatus::Exited(pid, _) => Some(*pid),
            WaitStatus::Signaled(pid, _, _) => Some(*pid),
            WaitStatus::Stopped(pid, _) => Some(*pid),
            WaitStatus::PtraceEvent(pid, _, _) => Some(*pid),
            WaitStatus::PtraceSyscall(pid) => Some(*pid),
            WaitStatus::Continued(pid) => Some(*pid),
            WaitStatus::StillAlive => None,
        }
    }

    /// Whether the outcome says that the process has ended, by leaving or
    /// by being killed.
    pub fn is_terminal(&self) -> (r: bool)
        ensures
            r == self.spec_is_terminal(),
    {
        match self {
            WaitStatus::Exited(_, _) => true,
            WaitStatus::Signaled(_, _, _) => true,
            _ => false,
        }
    }
}

/// How a process ended, as one integer in the encoding of the wait call:
/// the low seven bits hold the killing signal, or zero for a normal exit
/// whose code is in the next byte.
#[derive(Clone, Copy, Debug, PartialEq, Eq, Structural)]
pub struct ExitStatus {
    pub raw: i32,
}

impl ExitStatus {
    /// The low seven bits of the status.
    pub open spec fn spec_low7(self) -> int {
        self.raw as int % 128
    }

    pub open spec fn spec_success(self) -> bool {
        self.raw == 0
    }

    pub open spec fn spec_code(self) -> Option<i32> {
        if self.spec_low7() == 0 {
            Some(((self.raw as int / 256) % 256) as i32)
        } else {
            None
        }
    }

    pub open spec fn spec_signal(self) -> Option<i32> {
        if 1 <= self.spec_low7() <= 126 {
            Some(self.spec_low7() as i32)
        } else {
            None
        }
    }

    /// The status that holds the given integer.
    pub fn from_raw(raw: i32) -> (r: Self)
        ensures
            r.raw == raw,
    {
        ExitStatus { raw }
    }

    /// The integer that the status holds.
    pub fn into_raw(self) -> (r: i32)
        ensures
            r == self.raw,
    {
        self.raw
    }

    /// Whether the process ended well: the status is zero.
    pub fn success(&self) -> (r: bool)
        ensures
            r == self.spec_success(),
    {
        self.raw == 0
    }

    /// The exit code, if the status reads as a normal exit.
    pub fn code(&self) -> (r: Option<i32>)
        ensures
            r == self.spec_code(),
    {
        let raw: i32 = self.raw;
        let low: i32 = raw & 0x7f;
        let code: i32 = (raw >> 8) & 0xff;
        assert(raw & 0x7f == (raw as int) % 128) by (bit_vector);
        assert((raw >> 8) & 0xff == ((raw as int) / 256) % 256) by (bit_vector);
        if low == 0 {
            Some(code)
        } else {
            None
        }
    }

    /// The signal that killed the process, if the status reads as a
    /// death by signal.
    pub fn signal(&self) -> (r: Option<i32>)
        ensures
            r == self.spec_signal(),
    {
        let raw: i32 = self.raw;
        let low: i32 = raw & 0x7f;
        assert(raw & 0x7f == (raw as int) % 128) by (bit_vector);
        if 1 <= low && low <= 126 {
            Some(low)
        } else {
            None
        }
    }
}

/// The status of a normal exit with the given code, from 0 to 255: the
/// code in the second byte of the status.
pub open spec fn spec_exit_raw(code: i32) -> i32
    recommends
        0 <= code <= 255,
{
    (code * 256) as i32
}

/// The status of an outcome by signal: the signal in the low seven bits,
/// and above them the flag of a core dump.
pub open spec fn spec_signal_raw(signal: i32, core_dumped: bool) -> i32
    recommends
        spec_is_signal(signal),
{
    (signal + if core_dumped {
        128int
    } else {
        0int
    }) as i32
}

/// The exit status that stands for a wait outcome, in the encoding of the
/// wait call. An exit gives its code, a kill the signal and the core flag,
/// a stop and a trace event the signal. The outcomes that tell nothing of
/// an end give `FALLBACK_STATUS`, and so does an outcome that no operating
/// system reports: an exit whose code does not fit a byte, and a number in
/// the place of a signal that is no signal.
pub open spec fn spec_wait_to_exit(wait: WaitStatus) -> ExitStatus {
    if !wait.spec_valid() {
        ExitStatus { raw: FALLBACK_STATUS }
    } else {
        match wait {
            WaitStatus::Exited(_, code) => ExitStatus { raw: spec_exit_raw(code) },
            WaitStatus::Signaled(_, signal, core) => ExitStatus {
                raw: spec_signal_raw(signal, core),
            },
            WaitStatus::Stopped(_, signal) => ExitStatus { raw: spec_signal_raw(signal, false) },
            WaitStatus::PtraceEvent(_, signal, _) => ExitStatus {
                raw: spec_signal_raw(signal, false),
            },
            WaitStatus::PtraceSyscall(_) => ExitStatus { raw: FALLBACK_STATUS },
            WaitStatus::Continued(_) => ExitStatus { raw: FALLBACK_STATUS },
            WaitStatus::StillAlive => ExitStatus { raw: FALLBACK_STATUS },
        }
    }
}

/// Turns a wait outcome into an exit status. Every outcome has one, and
/// the status is a success for the normal exit with code zero alone.
pub fn wait_to_exit(wait: WaitStatus) -> (status: ExitStatus)
    ensures
        status == spec_wait_to_exit(wait),
        status.spec_success() <==> (wait matches WaitStatus::Exited(_, code) && code == 0),
{
    if !wait.is_valid() {
        return ExitStatus::from_raw(FALLBACK_STATUS);
    }
    match wait {
        WaitStatus::Exited(_, code) => ExitStatus::from_raw(code * 256),
        WaitStatus::Signaled(_, signal, core) => if core {
            ExitStatus::from_raw(signal + 128)
        } else {
            ExitStatus::from_raw(signal)
        },
        WaitStatus::Stopped(_, signal) => ExitStatus::from_raw(signal),
        WaitStatus::PtraceEvent(_, signal, _) => ExitStatus::from_raw(signal),
        WaitStatus::PtraceSyscall(_) => ExitStatus::from_raw(FALLBACK_STATUS),
        WaitStatus::Continued(_) => ExitStatus::from_raw(FALLBACK_STATUS),
        WaitStatus::StillAlive => ExitStatus::from_raw(FALLBACK_STATUS),
    }
}

/// The status that the parent of a process reads from its own wait call
/// when the process ends as `wait` says: the exit code in the second byte,
/// or the signal in the low seven bits with the core flag above them.
pub open spec fn parent_status(wait: WaitStatus) -> int
    recommends
        wait.spec_is_terminal(),
        wait.spec_valid(),
{
    match wait {
        WaitStatus::Exited(_, code) => (code as int % 256) * 256,
        WaitStatus::Signaled(_, signal, core) => signal as int % 128 + if core {
            128int
        } else {
            0int
        },
        _ => 0,
    }
}

/// Every wait outcome has its status, and the status is a success for
/// one outcome alone, whatever numbers the outcome holds: the normal exit
/// with code zero.
pub proof fn lemma_success_iff_zero(wait: WaitStatus)
    ensures
        spec_wait_to_exit(wait).spec_success() <==> (wait matches WaitStatus::Exited(_, code)
            && code == 0),
{
}

/// The outcomes that do not tell how a process ended, and the outcomes
/// that no operating system reports, have the fallback, which is never
/// read as success.
pub proof fn lemma_translation_total(wait: WaitStatus)
    ensures
        wait is PtraceSyscall || wait is Continued || wait is StillAlive || !wait.spec_valid()
            ==> {
            &&& spec_wait_to_exit(wait).raw == FALLBACK_STATUS
            &&& !spec_wait_to_exit(wait).spec_success()
        },
        wait.spec_valid() ==> {
            &&& wait matches WaitStatus::Exited(_, code) ==> spec_wait_to_exit(wait).raw == 256
                * code
            &&& wait matches WaitStatus::Signaled(_, signal, core) ==> spec_wait_to_exit(wait).raw
                == signal + if core {
                128int
            } else {
                0int
            }
            &&& wait matches WaitStatus::Stopped(_, signal) ==> spec_wait_to_exit(wait).raw
                == signal
            &&& wait matches WaitStatus::PtraceEvent(_, signal, _) ==> spec_wait_to_exit(wait).raw
                == signal
        },
{
}

/// The status of a normal exit carries the exit code: it reads as an exit
/// with that code and as no death by signal, and it is a success exactly
/// for the code zero.
pub proof fn lemma_exit_carries_code(pid: i32, code: i32)
    requires
        0 <= code <= 255,
    ensures
        spec_wait_to_exit(WaitStatus::Exited(pid, code)).raw == 256 * code,
        spec_wait_to_exit(WaitStatus::Exited(pid, code)).spec_code() == Some(code),
        spec_wait_to_exit(WaitStatus::Exited(pid, code)).spec_signal() is None,
        spec_wait_to_exit(WaitStatus::Exited(pid, code)).spec_success() == (code == 0),
{
}

/// A process killed by a signal has a status that is no success, that
/// names the signal, and that reads as no exit.
pub proof fn lemma_killed_status(pid: i32, signal: i32, core_dumped: bool)
    requires
        spec_is_signal(signal),
    ensures
        !spec_wait_to_exit(WaitStatus::Signaled(pid, signal, core_dumped)).spec_success(),
        spec_wait_to_exit(WaitStatus::Signaled(pid, signal, core_dumped)).spec_signal() == Some(
            signal,
        ),
        spec_wait_to_exit(WaitStatus::Signaled(pid, signal, core_dumped)).spec_code() is None,
{
}

/// A status that reads as a death by signal is no success and reads as
/// no exit.
pub proof fn lemma_signal_excludes_success(status: ExitStatus)
    requires
        status.spec_signal() is Some,
    ensures
        !status.spec_success(),
        status.spec_code() is None,
{
}

/// The translated status of a process that has ended, as an operating
/// system reports it, is the very status that the parent of the process
/// reads from its own wait call.
pub proof fn lemma_same_status_as_parent(wait: WaitStatus)
    requires
        wait.spec_is_terminal(),
        wait.spec_valid(),
    ensures
        spec_wait_to_exit(wait).raw == parent_status(wait),
{
}

} // verus!
