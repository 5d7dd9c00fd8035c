//! Init process for containers that run beside a service-mesh sidecar.
//!
//! The library holds the decisions of a run: when to wait for the sidecar,
//! when to launch the workload, when to ask the sidecar to shut down, and
//! which status the run ends with. The caller performs the network calls,
//! the sleeps and the child process, and reports back what happened.
pub mod config;
pub mod http;
pub mod orchestrator;
pub mod readiness;
pub mod supervisor;
