//! The sequence of a run: wait for the sidecar, supervise the workload,
//! shut the sidecar down, and settle the run's exit status.
//!
//! Each method takes in what the last step led to and says which step the
//! caller performs next.
use vstd::prelude::*;
use crate::config::Config;
use crate::supervisor::{outcome_status, ProcessOutcome, UNKNOWN_OUTCOME_STATUS};

verus! {

/// Where the run stands.
#[derive(Clone, Copy, Debug, PartialEq, Eq, Structural)]
pub enum Phase {
    Init,
    AwaitingSidecar,
    Supervising,
    Terminating,
    Done,
}

/// What became of the workload.
#[derive(Clone, Copy, Debug, PartialEq, Eq, Structural)]
pub enum WorkloadResult {
    /// It ran and terminated this way.
    Finished(ProcessOutcome),
    /// It could not be spawned.
    SpawnFailed,
    /// It was spawned, but waiting for it failed.
    WaitFailed,
}

/// Why a run failed.
#[derive(Clone, Copy, Debug, PartialEq, Eq, Structural)]
pub enum RunError {
    /// The sidecar never became ready; the workload was not started.
    ReadinessWaitFailed,
    /// The workload's outcome could not be determined.
    ChildWaitFailed,
    /// The request to shut the sidecar down failed; the workload had
    /// already finished with this status.
    TerminationFailed { workload_status: i64 },
}

/// What the caller does next.
#[derive(Clone, Copy, Debug, PartialEq, Eq, Structural)]
pub enum Step {
    /// Wait until the sidecar reports ready, and report whether it did.
    AwaitSidecar,
    /// Spawn the workload, wait for it, and report what became of it.
    SpawnWorkload,
    /// Ask the sidecar to shut down, and report whether that succeeded.
    TerminateSidecar,
    /// The run is over, with this exit status.
    Exit(i64),
    /// The run failed.
    Fail(RunError),
}

/// The exit status that stands for what became of the workload: that of
/// its outcome, or the sentinel when there is no outcome.
pub open spec fn result_status(r: WorkloadResult) -> int {
    match r {
        WorkloadResult::Finished(o) => outcome_status(o),
        _ => UNKNOWN_OUTCOME_STATUS as int,
    }
}

/// How a run ends, given what became of the workload and whether shutting
/// the sidecar down (when it was asked for) succeeded. A failed shutdown is
/// reported with the workload's status unchanged; a workload whose outcome
/// is unknown fails the run; a workload that could not be spawned ends the
/// run with the sentinel status.
pub open spec fn final_step(r: WorkloadResult, terminated: bool) -> Step {
    if !terminated {
        Step::Fail(RunError::TerminationFailed { workload_status: result_status(r) as i64 })
    } else if r is WaitFailed {
        Step::Fail(RunError::ChildWaitFailed)
    } else {
        Step::Exit(result_status(r) as i64)
    }
}

pub open spec fn is_network_step(s: Step) -> bool {
    s is AwaitSidecar || s is TerminateSidecar
}

/// One run of the workload beside an optional sidecar.
pub struct Orchestrator {
    pub config: Config,
    pub phase: Phase,
    /// What became of the workload, once known.
    pub workload: Option<WorkloadResult>,
}

impl Orchestrator {
    pub open spec fn sidecar_enabled(&self) -> bool {
        self.config.sidecar is Some
    }

    pub open spec fn tears_down_sidecar(&self) -> bool {
        match self.config.sidecar {
            Some(s) => s.terminate_after_exit,
            None => false,
        }
    }

    /// The phase and step that follow the start of a run.
    pub open spec fn start_spec(&self) -> (Phase, Step) {
        if self.sidecar_enabled() {
            (Phase::AwaitingSidecar, Step::AwaitSidecar)
        } else {
            (Phase::Supervising, Step::SpawnWorkload)
        }
    }

    /// The phase and step that follow the end of the sidecar wait.
    pub open spec fn sidecar_spec(ready: bool) -> (Phase, Step) {
        if ready {
            (Phase::Supervising, Step::SpawnWorkload)
        } else {
            (Phase::Done, Step::Fail(RunError::ReadinessWaitFailed))
        }
    }

    /// The phase and step that follow the end of the workload.
    pub open spec fn workload_spec(&self, r: WorkloadResult) -> (Phase, Step) {
        if self.tears_down_sidecar() {
            (Phase::Terminating, Step::TerminateSidecar)
        } else {
            (Phase::Done, final_step(r, true))
        }
    }

    /// A run of `config` that has not started.
    pub fn new(config: Config) -> (r: Orchestrator)
        ensures
            r.config == config,
            r.phase == Phase::Init,
            r.workload == None::<WorkloadResult>,
    {
        Orchestrator { config, phase: Phase::Init, workload: None }
    }

    /// Starts the run: with a sidecar, first wait for it; without one, go
    /// straight to the workload.
    pub fn start(&mut self) -> (r: Step)
        requires
            old(self).phase == Phase::Init,
        ensures
            (final(self).phase, r) == old(self).start_spec(),
            final(self).config == old(self).config,
            final(self).workload == old(self).workload,
    {
        if self.config.sidecar.is_some() {
            self.phase = Phase::AwaitingSidecar;
            Step::AwaitSidecar
        } else {
            self.phase = Phase::Supervising;
            Step::SpawnWorkload
        }
    }

    /// Takes in the end of the sidecar wait. Only a ready sidecar lets the
    /// workload start; otherwise the run fails at once, with no workload and
    /// no shutdown request.
    pub fn sidecar_ready(&mut self, ready: bool) -> (r: Step)
        requires
            old(self).phase == Phase::AwaitingSidecar,
        ensures
            (final(self).phase, r) == Orchestrator::sidecar_spec(ready),
            final(self).config == old(self).config,
            final(self).workload == old(self).workload,
    {
        if ready {
            self.phase = Phase::Supervising;
            Step::SpawnWorkload
        } else {
            self.phase = Phase::Done;
            Step::Fail(RunError::ReadinessWaitFailed)
        }
    }

    /// Takes in what became of the workload. Whether it ran or not, the
    /// sidecar is then asked to shut down when that is configured; else the
    /// run ends.
    pub fn workload_done(&mut self, result: WorkloadResult) -> (r: Step)
        requires
            old(self).phase == Phase::Supervising,
        ensures
            (final(self).phase, r) == old(self).workload_spec(result),
            final(self).config == old(self).config,
            final(self).workload == Some(result),
    {
        self.workload = Some(result);
        if self.teardown_enabled() {
            self.phase = Phase::Terminating;
            Step::TerminateSidecar
        } else {
            self.phase = Phase::Done;
            finish(result, true)
        }
    }

    /// Takes in whether the shutdown request succeeded, and ends the run.
    pub fn termination_done(&mut self, ok: bool) -> (r: Step)
        requires
            old(self).phase == Phase::Terminating,
            old(self).workload is Some,
        ensures
            final(self).phase == Phase::Done,
            r == final_step(old(self).workload->Some_0, ok),
            final(self).config == old(self).config,
            final(self).workload == old(self).workload,
    {
        self.phase = Phase::Done;
        match self.workload {
            Some(result) => finish(result, ok),
            None => finish(WorkloadResult::SpawnFailed, ok),
        }
    }

    /// Whether the sidecar is to be shut down after the workload.
    pub fn teardown_enabled(&self) -> (r: bool)
        ensures
            r == self.tears_down_sidecar(),
    {
        match &self.config.sidecar {
            Some(s) => s.terminate_after_exit,
            None => false,
        }
    }
}

/// The exit status that stands for what became of the workload.
pub fn workload_status(r: WorkloadResult) -> (s: i64)
    ensures
        s == result_status(r),
{
    match r {
        WorkloadResult::Finished(o) => o.exit_status(),
        _ => UNKNOWN_OUTCOME_STATUS,
    }
}

/// How a run ends; see `final_step`.
pub fn finish(r: WorkloadResult, terminated: bool) -> (s: Step)
    ensures
        s == final_step(r, terminated),
{
    let status = workload_status(r);
    if !terminated {
        Step::Fail(RunError::TerminationFailed { workload_status: status })
    } else {
        match r {
            WorkloadResult::WaitFailed => Step::Fail(RunError::ChildWaitFailed),
            _ => Step::Exit(status),
        }
    }
}

/// Without a sidecar, a run is one spawn of the workload and then its end,
/// whatever became of the workload: no step of it calls the network.
pub proof fn lemma_no_network_without_sidecar(o: Orchestrator, r: WorkloadResult)
    requires
        o.config.sidecar is None,
    ensures
        o.start_spec() == (Phase::Supervising, Step::SpawnWorkload),
        o.workload_spec(r).0 == Phase::Done,
        !is_network_step(o.start_spec().1),
        !is_network_step(o.workload_spec(r).1),
{
}

/// With shutdown configured, the sidecar is asked to shut down whatever
/// became of the workload, even when it could not be spawned; and a failed
/// request is reported with the workload's status unchanged.
pub proof fn lemma_teardown_after_any_workload(o: Orchestrator, r: WorkloadResult)
    requires
        o.tears_down_sidecar(),
    ensures
        o.workload_spec(r) == (Phase::Terminating, Step::TerminateSidecar),
        final_step(r, false) == Step::Fail(
            RunError::TerminationFailed { workload_status: result_status(r) as i64 },
        ),
{
}

/// A sidecar that never becomes ready ends the run: the workload is never
/// spawned and no shutdown request is sent.
pub proof fn lemma_not_ready_aborts()
    ensures
        Orchestrator::sidecar_spec(false) == (Phase::Done, Step::Fail(RunError::ReadinessWaitFailed)),
{
}

/// A workload that finished ends an undisturbed run with its own status.
pub proof fn lemma_status_is_workload_status(o: ProcessOutcome)
    ensures
        final_step(WorkloadResult::Finished(o), true) == Step::Exit(outcome_status(o) as i64),
{
}

} // verus!
