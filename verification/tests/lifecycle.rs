use sidecar_supervisor::endpoint::BackendEndpoint;
use sidecar_supervisor::errors::FailureReason;
use sidecar_supervisor::launch::BackendHandle;
use sidecar_supervisor::supervisor::is_backend_already_running;
use sidecar_supervisor::supervisor::LifecycleState;
use sidecar_supervisor::supervisor::PollVerdict;
use sidecar_supervisor::supervisor::ReportedState;
use sidecar_supervisor::supervisor::StartStep;
use sidecar_supervisor::supervisor::Supervisor;
use sidecar_supervisor::termination::TerminationRecord;

fn fresh_supervisor(max_attempts: u32, http_health: bool, exclusive: bool) -> Supervisor {
    let endpoint = BackendEndpoint::new("127.0.0.1".to_string(), 8000);
    Supervisor::new(endpoint, "/health".to_string(), 500, max_attempts, http_health, exclusive)
}

fn handle(pid: u32) -> BackendHandle {
    BackendHandle { pid, working_dir: "/opt/backend".to_string(), started_at_ms: 1000 }
}

#[test]
fn attach_when_endpoint_already_reachable() {
    let mut sup = fresh_supervisor(120, true, false);
    let step = sup.start_probe(is_backend_already_running(true));
    assert_eq!(step, StartStep::AttachExisting);
    assert_eq!(sup.current_state(), LifecycleState::Ready);
    assert!(sup.handle.is_none());
    let report = sup.status_report(true);
    assert_eq!(report.state, ReportedState::Ready);
    assert!(report.attached);
}

#[test]
fn exclusive_supervisor_refuses_running_instance() {
    let mut sup = fresh_supervisor(120, true, true);
    let step = sup.start_probe(true);
    assert_eq!(step, StartStep::RefusedAlreadyRunning);
    assert_eq!(sup.current_state(), LifecycleState::Failed(FailureReason::AlreadyRunning));
    assert!(sup.handle.is_none());
}

#[test]
fn unreachable_endpoint_directs_spawn() {
    let mut sup = fresh_supervisor(120, true, false);
    let step = sup.start_probe(is_backend_already_running(false));
    assert_eq!(step, StartStep::SpawnBackend);
    assert_eq!(sup.current_state(), LifecycleState::NotStarted);
}

#[test]
fn spawn_failure_never_leaves_starting_state() {
    let mut sup = fresh_supervisor(120, true, false);
    let mut record = TerminationRecord::new();
    let step = sup.start_probe(false);
    assert_eq!(step, StartStep::SpawnBackend);
    sup.on_spawn_outcome(&mut record, Err(FailureReason::ResourceNotFound));
    assert_eq!(sup.current_state(), LifecycleState::Failed(FailureReason::ResourceNotFound));
    assert!(sup.handle.is_none());
    assert_eq!(record.pid, 0);
}

#[test]
fn successful_spawn_records_pid_before_returning() {
    let mut sup = fresh_supervisor(120, true, false);
    let mut record = TerminationRecord::new();
    sup.start_probe(false);
    sup.on_spawn_outcome(&mut record, Ok(handle(4242)));
    assert_eq!(sup.current_state(), LifecycleState::Starting);
    assert_eq!(record.pid, 4242);
    assert!(!record.cleanup_done);
}

#[test]
fn ready_exactly_on_first_successful_attempt() {
    let mut sup = fresh_supervisor(120, true, false);
    let mut record = TerminationRecord::new();
    sup.start_probe(false);
    sup.on_spawn_outcome(&mut record, Ok(handle(7)));
    // The health path answers a non-success status for the first three
    // polls: none of them is surfaced as a failure.
    for _ in 0..3 {
        assert_eq!(sup.poll_step(true, false), PollVerdict::Continue);
        assert_eq!(sup.current_state(), LifecycleState::Starting);
    }
    assert_eq!(sup.poll_step(true, true), PollVerdict::Ready);
    assert_eq!(sup.current_state(), LifecycleState::Ready);
    assert_eq!(sup.attempts_made, 4);
}

#[test]
fn tcp_only_supervisor_ignores_health_outcome() {
    let mut sup = fresh_supervisor(120, false, false);
    let mut record = TerminationRecord::new();
    sup.start_probe(false);
    sup.on_spawn_outcome(&mut record, Ok(handle(7)));
    assert_eq!(sup.poll_step(false, false), PollVerdict::Continue);
    assert_eq!(sup.poll_step(true, false), PollVerdict::Ready);
}

#[test]
fn poll_times_out_after_attempt_budget() {
    let mut sup = fresh_supervisor(3, true, false);
    let mut record = TerminationRecord::new();
    sup.start_probe(false);
    sup.on_spawn_outcome(&mut record, Ok(handle(9)));
    assert_eq!(sup.poll_step(false, false), PollVerdict::Continue);
    assert_eq!(sup.poll_step(false, false), PollVerdict::Continue);
    assert_eq!(sup.poll_step(false, false), PollVerdict::TimedOut);
    assert_eq!(sup.current_state(), LifecycleState::Failed(FailureReason::Timeout));
    assert!(sup.handle.is_none());
    // The spawned process stays known to the termination record for
    // teardown even though the start attempt failed.
    assert_eq!(record.pid, 9);
    assert_eq!(sup.poll_step(true, true), PollVerdict::Cancelled);
}

#[test]
fn stop_during_wait_cancels_polling() {
    let mut sup = fresh_supervisor(120, true, false);
    let mut record = TerminationRecord::new();
    sup.start_probe(false);
    sup.on_spawn_outcome(&mut record, Ok(handle(11)));
    assert_eq!(sup.poll_step(false, false), PollVerdict::Continue);
    let kill = sup.stop();
    assert_eq!(kill, Some(11));
    assert_eq!(sup.poll_step(true, true), PollVerdict::Cancelled);
    assert_eq!(sup.current_state(), LifecycleState::Stopped);
}

#[test]
fn stop_is_idempotent() {
    let mut sup = fresh_supervisor(120, true, false);
    let mut record = TerminationRecord::new();
    sup.start_probe(false);
    sup.on_spawn_outcome(&mut record, Ok(handle(21)));
    sup.poll_step(true, true);
    assert_eq!(sup.stop(), Some(21));
    let state_after_first = sup.current_state();
    assert_eq!(sup.stop(), None);
    assert_eq!(sup.stop(), None);
    assert_eq!(sup.current_state(), state_after_first);
    assert_eq!(sup.current_state(), LifecycleState::Stopped);
    assert!(sup.handle.is_none());
}

#[test]
fn stop_before_any_start_is_harmless() {
    let mut sup = fresh_supervisor(120, true, false);
    assert_eq!(sup.stop(), None);
    assert_eq!(sup.current_state(), LifecycleState::Stopped);
}

#[test]
fn status_recheck_reports_dead_backend() {
    let mut sup = fresh_supervisor(120, true, false);
    let mut record = TerminationRecord::new();
    sup.start_probe(false);
    sup.on_spawn_outcome(&mut record, Ok(handle(31)));
    sup.poll_step(true, true);
    assert!(sup.needs_health_recheck());
    let live = sup.status_report(true);
    assert_eq!(live.state, ReportedState::Ready);
    assert_eq!(live.port, 8000);
    assert_eq!(live.host, "127.0.0.1");
    // The backend was killed externally: the re-check fails and the query
    // reports it, without disturbing the supervisor.
    let stale = sup.status_report(false);
    assert_eq!(stale.state, ReportedState::NotResponding);
    assert_eq!(sup.current_state(), LifecycleState::Ready);
}

#[test]
fn status_outside_ready_needs_no_recheck() {
    let mut sup = fresh_supervisor(120, true, false);
    assert!(!sup.needs_health_recheck());
    assert_eq!(sup.status_report(false).state, ReportedState::NotStarted);
    let mut record = TerminationRecord::new();
    sup.start_probe(false);
    sup.on_spawn_outcome(&mut record, Ok(handle(5)));
    assert!(!sup.needs_health_recheck());
    assert_eq!(sup.status_report(false).state, ReportedState::Starting);
    sup.stop();
    assert_eq!(sup.status_report(true).state, ReportedState::Stopped);
}

#[test]
fn restart_after_stop_runs_a_fresh_attempt() {
    let mut sup = fresh_supervisor(120, true, false);
    let mut record = TerminationRecord::new();
    sup.start_probe(false);
    sup.on_spawn_outcome(&mut record, Ok(handle(51)));
    sup.poll_step(false, false);
    sup.stop();
    let step = sup.start_probe(false);
    assert_eq!(step, StartStep::SpawnBackend);
    sup.on_spawn_outcome(&mut record, Ok(handle(52)));
    assert_eq!(sup.attempts_made, 0);
    assert_eq!(sup.current_state(), LifecycleState::Starting);
    assert_eq!(record.pid, 52);
}

#[test]
fn round_trip_spawn_wait_ready_then_death() {
    // The backend opens its socket only on the third poll and answers its
    // health check from then on; later it is killed externally.
    let mut sup = fresh_supervisor(120, true, false);
    let mut record = TerminationRecord::new();
    assert_eq!(sup.start_probe(false), StartStep::SpawnBackend);
    sup.on_spawn_outcome(&mut record, Ok(handle(61)));
    assert_eq!(sup.poll_step(false, false), PollVerdict::Continue);
    assert_eq!(sup.poll_step(false, false), PollVerdict::Continue);
    assert_eq!(sup.poll_step(true, true), PollVerdict::Ready);
    assert_eq!(sup.status_report(true).state, ReportedState::Ready);
    assert_eq!(sup.status_report(false).state, ReportedState::NotResponding);
    let kill = sup.stop();
    assert_eq!(kill, Some(61));
}
