//! Terminal status of a child process and the observations that
//! produce it.

use vstd::prelude::*;

verus! {

/// How a child process ended.
///
/// `Exited` is a normal exit with the given code, `Signaled` a
/// termination by the given signal, `Other` any non-standard platform
/// outcome, and `Undetermined` the status of a process that was
/// detached before its exit was observed.
#[derive(Clone, Copy, Debug, PartialEq, Eq, Structural)]
pub enum ExitStatus {
    Exited(u32),
    Signaled(u8),
    Other(i32),
    Undetermined,
}

impl ExitStatus {
    /// True exactly when the child exited normally with code 0.
    pub fn success(&self) -> (r: bool)
        ensures
            r == (*self == ExitStatus::Exited(0u32)),
    {
        match self {
            ExitStatus::Exited(code) => *code == 0,
            _ => false,
        }
    }
}

/// One answer from the operating system to a wait query: either the
/// child is still running, or it ended in one of the ways the kernel
/// reports.  Each variant carries the child's process id first.
#[derive(Clone, Copy, Debug, PartialEq, Eq, Structural)]
pub enum WaitOutcome {
    StillRunning,
    Exited(i32, i32),
    Signaled(i32, i32),
    Other(i32, i32),
}

/// A well-formed observation: exit codes are one byte wide and signal
/// numbers are small positive integers, as the kernel guarantees.
pub open spec fn outcome_wf(o: WaitOutcome) -> bool {
    match o {
        WaitOutcome::StillRunning => true,
        WaitOutcome::Exited(_, code) => 0 <= code < 256,
        WaitOutcome::Signaled(_, sig) => 1 <= sig < 256,
        WaitOutcome::Other(_, _) => true,
    }
}

/// The terminal status that one observation yields, if any.
pub open spec fn status_of_outcome(o: WaitOutcome) -> Option<ExitStatus> {
    match o {
        WaitOutcome::StillRunning => None,
        WaitOutcome::Exited(_, code) => Some(ExitStatus::Exited(code as u32)),
        WaitOutcome::Signaled(_, sig) => Some(ExitStatus::Signaled(sig as u8)),
        WaitOutcome::Other(_, raw) => Some(ExitStatus::Other(raw)),
    }
}

/// Translate one wait observation into a terminal status.
pub fn outcome_status(o: &WaitOutcome) -> (r: Option<ExitStatus>)
    requires
        outcome_wf(*o),
    ensures
        r == status_of_outcome(*o),
{
    match o {
        WaitOutcome::StillRunning => None,
        WaitOutcome::Exited(_, code) => Some(ExitStatus::Exited(*code as u32)),
        WaitOutcome::Signaled(_, sig) => Some(ExitStatus::Signaled(*sig as u8)),
        WaitOutcome::Other(_, raw) => Some(ExitStatus::Other(*raw)),
    }
}

} // verus!
