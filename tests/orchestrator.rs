use istinit::config::{Command, Config, ProcessConfig, SidecarConfig, DEFAULT_RETRY_INTERVAL_MS};
use istinit::orchestrator::{finish, workload_status, Orchestrator, Phase, RunError, Step, WorkloadResult};
use istinit::readiness::{ReadinessWaiter, WaitAction};
use istinit::supervisor::ProcessOutcome;

fn config(sidecar: Option<SidecarConfig>) -> Config {
    Config {
        process: ProcessConfig { command: "/bin/echo".to_string(), args: vec!["hi".to_string()] },
        sidecar,
        readiness_retry_interval_ms: 3000,
        readiness_deadline_ms: None,
    }
}

fn sidecar(terminate: bool) -> Option<SidecarConfig> {
    Some(SidecarConfig { endpoint: "http://127.0.0.1:15021".to_string(), terminate_after_exit: terminate })
}

#[test]
fn without_sidecar_no_network_step() {
    for result in [
        WorkloadResult::Finished(ProcessOutcome::Exited(4)),
        WorkloadResult::SpawnFailed,
        WorkloadResult::WaitFailed,
    ] {
        let mut o = Orchestrator::new(config(None));
        assert_eq!(o.start(), Step::SpawnWorkload);
        let end = o.workload_done(result);
        assert!(matches!(end, Step::Exit(_) | Step::Fail(_)));
        assert_eq!(o.phase, Phase::Done);
    }
}

#[test]
fn sidecar_ready_workload_prints_hi_and_exits_zero() {
    let mut o = Orchestrator::new(config(sidecar(false)));
    assert_eq!(o.start(), Step::AwaitSidecar);
    let mut w = ReadinessWaiter::new(o.config.readiness_retry_interval_ms, None);
    let mut probes = 0;
    let ready = loop {
        match w.poll(0) {
            WaitAction::Probe => {
                probes += 1;
                w.record_probe(true);
            }
            WaitAction::Ready => break true,
            _ => break false,
        }
    };
    assert_eq!(probes, 1);
    assert_eq!(o.sidecar_ready(ready), Step::SpawnWorkload);
    let end = o.workload_done(WorkloadResult::Finished(ProcessOutcome::Exited(0)));
    assert_eq!(end, Step::Exit(0));
    assert_eq!(o.phase, Phase::Done);
}

#[test]
fn sidecar_never_ready_never_spawns() {
    let mut o = Orchestrator::new(config(sidecar(true)));
    assert_eq!(o.start(), Step::AwaitSidecar);
    assert_eq!(o.sidecar_ready(false), Step::Fail(RunError::ReadinessWaitFailed));
    assert_eq!(o.phase, Phase::Done);
    assert_eq!(o.workload, None);
}

#[test]
fn spawn_failure_still_tears_down() {
    let mut o = Orchestrator::new(config(sidecar(true)));
    assert_eq!(o.start(), Step::AwaitSidecar);
    assert_eq!(o.sidecar_ready(true), Step::SpawnWorkload);
    assert_eq!(o.workload_done(WorkloadResult::SpawnFailed), Step::TerminateSidecar);
    assert_eq!(o.phase, Phase::Terminating);
    assert_eq!(o.termination_done(true), Step::Exit(-1));
}

#[test]
fn termination_failure_keeps_workload_status() {
    let mut o = Orchestrator::new(config(sidecar(true)));
    o.start();
    o.sidecar_ready(true);
    assert_eq!(o.workload_done(WorkloadResult::Finished(ProcessOutcome::Exited(3))), Step::TerminateSidecar);
    assert_eq!(o.termination_done(false), Step::Fail(RunError::TerminationFailed { workload_status: 3 }));
}

#[test]
fn wait_failure_tears_down_then_fails() {
    let mut o = Orchestrator::new(config(sidecar(true)));
    o.start();
    o.sidecar_ready(true);
    assert_eq!(o.workload_done(WorkloadResult::WaitFailed), Step::TerminateSidecar);
    assert_eq!(o.termination_done(true), Step::Fail(RunError::ChildWaitFailed));
}

#[test]
fn sidecar_without_teardown_skips_termination() {
    let mut o = Orchestrator::new(config(sidecar(false)));
    assert!(!o.teardown_enabled());
    o.start();
    o.sidecar_ready(true);
    let end = o.workload_done(WorkloadResult::Finished(ProcessOutcome::Signaled(15)));
    assert_eq!(end, Step::Exit(143));
}

#[test]
fn statuses_of_results() {
    assert_eq!(workload_status(WorkloadResult::Finished(ProcessOutcome::Exited(7))), 7);
    assert_eq!(workload_status(WorkloadResult::Finished(ProcessOutcome::Signaled(2))), 130);
    assert_eq!(workload_status(WorkloadResult::SpawnFailed), -1);
    assert_eq!(finish(WorkloadResult::SpawnFailed, false), Step::Fail(RunError::TerminationFailed { workload_status: -1 }));
}

#[test]
fn command_with_istio_and_kill() {
    let c = Command::new(true, true, "http://127.0.0.1:15021".to_string(), true, "app".to_string(), vec!["-v".to_string()]);
    assert!(c.enable_process_subreaper());
    let cfg = c.into_config();
    assert_eq!(cfg.process.command, "app");
    assert_eq!(cfg.process.args, vec!["-v".to_string()]);
    let s = cfg.sidecar.unwrap();
    assert_eq!(s.endpoint, "http://127.0.0.1:15021");
    assert!(s.terminate_after_exit);
    assert_eq!(cfg.readiness_retry_interval_ms, DEFAULT_RETRY_INTERVAL_MS);
    assert_eq!(cfg.readiness_retry_interval_ms, 3000);
    assert_eq!(cfg.readiness_deadline_ms, None);
}

#[test]
fn command_without_istio_ignores_kill() {
    let c = Command::new(false, false, "http://127.0.0.1:15021".to_string(), true, "app".to_string(), vec![]);
    assert!(!c.enable_process_subreaper());
    let cfg = c.into_config();
    assert!(cfg.sidecar.is_none());
    let mut o = Orchestrator::new(cfg);
    assert!(!o.teardown_enabled());
    assert_eq!(o.start(), Step::SpawnWorkload);
}
