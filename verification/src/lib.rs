//! Verified core of a supervisor for a sidecar backend process.
//!
//! The library holds the decision logic of the supervisor: the lifecycle
//! state machine, the readiness-poll bookkeeping, the one-shot termination
//! record, the launch-outcome rules, the output-relay filter, and the
//! construction of the endpoint's address strings.  All blocking work
//! (spawning, socket probes, HTTP requests, sleeping, killing) is performed
//! by the unverified shell around the library, which feeds the observed
//! outcomes back into these functions as plain values.

pub mod endpoint;
pub mod errors;
pub mod launch;
pub mod relay;
pub mod supervisor;
pub mod termination;
pub mod textscan;
