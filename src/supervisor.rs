//! How a finished workload is described and turned into an exit status.
use vstd::prelude::*;

verus! {

/// Offset added to a signal number to form the exit status of a workload
/// that a signal killed, as POSIX shells do.
pub const SIGNAL_STATUS_OFFSET: i64 = 128;

/// Status reported for a workload whose outcome could not be determined
/// (it could not be spawned, or waiting for it failed).
pub const UNKNOWN_OUTCOME_STATUS: i64 = -1;

/// How the workload terminated.
#[derive(Clone, Copy, Debug, PartialEq, Eq, Structural)]
pub enum ProcessOutcome {
    /// It exited on its own with this code.
    Exited(i32),
    /// A signal with this number killed it.
    Signaled(i32),
}

/// The exit status that stands for an outcome: the code itself for a
/// normal exit, 128 plus the signal number for a signal.
pub open spec fn outcome_status(o: ProcessOutcome) -> int {
    match o {
        ProcessOutcome::Exited(code) => code as int,
        ProcessOutcome::Signaled(sig) => SIGNAL_STATUS_OFFSET + sig,
    }
}

/// The outcome that a wait status stands for, given its exit code and its
/// terminating signal: a code, when there is one, is a normal exit; else a
/// signal is a kill by that signal; a status with neither stands for none.
pub open spec fn wait_status_outcome(code: Option<i32>, signal: Option<i32>) -> Option<ProcessOutcome> {
    match (code, signal) {
        (Some(c), _) => Some(ProcessOutcome::Exited(c)),
        (None, Some(s)) => Some(ProcessOutcome::Signaled(s)),
        (None, None) => None,
    }
}

impl ProcessOutcome {
    /// Classifies a wait status given as its exit code and its terminating
    /// signal, as the operating system reports them. A code, when there is
    /// one, wins; `None` when the status carries neither.
    pub fn from_wait_status(code: Option<i32>, signal: Option<i32>) -> (r: Option<ProcessOutcome>)
        ensures
            r == wait_status_outcome(code, signal),
    {
        match code {
            Some(c) => Some(ProcessOutcome::Exited(c)),
            None => match signal {
                Some(s) => Some(ProcessOutcome::Signaled(s)),
                None => None,
            },
        }
    }

    /// The exit status that stands for this outcome.
    pub fn exit_status(&self) -> (r: i64)
        ensures
            r == outcome_status(*self),
    {
        match *self {
            ProcessOutcome::Exited(code) => code as i64,
            ProcessOutcome::Signaled(sig) => SIGNAL_STATUS_OFFSET + sig as i64,
        }
    }

    /// Whether the workload exited on its own.
    pub fn is_normal_exit(&self) -> (r: bool)
        ensures
            r == (*self is Exited),
    {
        match *self {
            ProcessOutcome::Exited(_) => true,
            ProcessOutcome::Signaled(_) => false,
        }
    }
}

/// A workload that exits normally with a code `n` in `0..=255` is reported
/// as the normal exit carrying `n`, and its exit status is `n`.
pub proof fn lemma_normal_exit_kept(n: i32)
    requires
        0 <= n <= 255,
    ensures
        wait_status_outcome(Some(n), None) == Some(ProcessOutcome::Exited(n)),
        outcome_status(ProcessOutcome::Exited(n)) == n,
{
}

/// A workload killed by signal `s` is reported as the signal outcome
/// carrying `s`, which differs from a normal exit with code `s`, and so does
/// its exit status.
pub proof fn lemma_signal_distinct_from_exit(s: i32)
    ensures
        wait_status_outcome(None, Some(s)) == Some(ProcessOutcome::Signaled(s)),
        wait_status_outcome(None, Some(s)) != wait_status_outcome(Some(s), None),
        outcome_status(ProcessOutcome::Signaled(s)) != outcome_status(ProcessOutcome::Exited(s)),
{
}

} // verus!
