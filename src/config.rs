//! What a run is configured with.
use vstd::prelude::*;

verus! {

/// The readiness retry interval used when none is configured.
pub const DEFAULT_RETRY_INTERVAL_MS: u64 = 3000;

/// The workload: an executable and its arguments, in order.
pub struct ProcessConfig {
    pub command: String,
    pub args: Vec<String>,
}

/// How the run works with the sidecar.
pub struct SidecarConfig {
    /// Base URL of the sidecar's administrative endpoint.
    pub endpoint: String,
    /// Whether to ask the sidecar to shut down once the workload has exited.
    pub terminate_after_exit: bool,
}

/// Everything a run needs; it does not change once the run starts.
pub struct Config {
    pub process: ProcessConfig,
    /// `None` when the run does not work with a sidecar at all.
    pub sidecar: Option<SidecarConfig>,
    pub readiness_retry_interval_ms: u64,
    /// How long to wait for the sidecar at most; `None` waits as long as it
    /// takes.
    pub readiness_deadline_ms: Option<u64>,
}

/// The options given on the command line.
pub struct Command {
    enable_process_subreaper: bool,
    with_istio: bool,
    pilot_agent_endpoint: String,
    kill_istio: bool,
    command: String,
    args: Vec<String>,
}

impl Command {
    pub closed spec fn spec_enable_process_subreaper(&self) -> bool {
        self.enable_process_subreaper
    }

    pub closed spec fn spec_with_istio(&self) -> bool {
        self.with_istio
    }

    pub closed spec fn spec_pilot_agent_endpoint(&self) -> String {
        self.pilot_agent_endpoint
    }

    pub closed spec fn spec_kill_istio(&self) -> bool {
        self.kill_istio
    }

    pub closed spec fn spec_command(&self) -> String {
        self.command
    }

    pub closed spec fn spec_args(&self) -> Vec<String> {
        self.args
    }

    /// Gathers the parsed options.
    pub fn new(
        enable_process_subreaper: bool,
        with_istio: bool,
        pilot_agent_endpoint: String,
        kill_istio: bool,
        command: String,
        args: Vec<String>,
    ) -> (r: Command)
        ensures
            r.spec_enable_process_subreaper() == enable_process_subreaper,
            r.spec_with_istio() == with_istio,
            r.spec_pilot_agent_endpoint() == pilot_agent_endpoint,
            r.spec_kill_istio() == kill_istio,
            r.spec_command() == command,
            r.spec_args() == args,
    {
        Command { enable_process_subreaper, with_istio, pilot_agent_endpoint, kill_istio, command, args }
    }

    /// Whether the process should act as a subreaper for orphaned children.
    pub fn enable_process_subreaper(&self) -> (r: bool)
        ensures
            r == self.spec_enable_process_subreaper(),
    {
        self.enable_process_subreaper
    }

    /// The run these options ask for: the sidecar is waited for only with
    /// `with_istio`, and shut down afterwards only with `kill_istio` as well;
    /// readiness is retried at the default interval, with no deadline.
    pub fn into_config(self) -> (r: Config)
        ensures
            r.process.command == self.spec_command(),
            r.process.args == self.spec_args(),
            r.sidecar == (if self.spec_with_istio() {
                Some(
                    SidecarConfig {
                        endpoint: self.spec_pilot_agent_endpoint(),
                        terminate_after_exit: self.spec_kill_istio(),
                    },
                )
            } else {
                None
            }),
            r.readiness_retry_interval_ms == DEFAULT_RETRY_INTERVAL_MS,
            r.readiness_deadline_ms == None::<u64>,
    {
        let sidecar = if self.with_istio {
            Some(SidecarConfig { endpoint: self.pilot_agent_endpoint, terminate_after_exit: self.kill_istio })
        } else {
            None
        };
        Config {
            process: ProcessConfig { command: self.command, args: self.args },
            sidecar,
            readiness_retry_interval_ms: DEFAULT_RETRY_INTERVAL_MS,
            readiness_deadline_ms: None,
        }
    }
}

} // verus!
