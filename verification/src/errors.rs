use vstd::prelude::*;

verus! {

/// Why a start attempt failed, or why the backend is considered unavailable.
///
/// `ResourceNotFound`, `NotExecutable` and `SpawnFailed` abort a start
/// attempt before or at process creation; `AlreadyRunning` reports that the
/// endpoint was reachable before a spawn was attempted; `Timeout` reports
/// that the readiness poll exhausted its attempt budget; `HealthCheckError`
/// marks a transient, non-fatal health probe failure.
#[derive(Clone, Copy, Debug, PartialEq, Eq, Structural)]
pub enum FailureReason {
    ResourceNotFound,
    NotExecutable,
    SpawnFailed,
    AlreadyRunning,
    Timeout,
    HealthCheckError,
}

} // verus!
