use vstd::prelude::*;
use vstd::arithmetic::div_mod::lemma_fundamental_div_mod;
use vstd::arithmetic::div_mod::lemma_mod_division_less_than_divisor;
use crate::endpoint::BackendEndpoint;
use crate::errors::FailureReason;
use crate::launch::BackendHandle;
use crate::termination::TerminationRecord;

verus! {

/// The lifecycle of one supervised backend.  `Starting` and `Ready` are the
/// only states in which a spawned process is held; no transition leaves
/// `Stopped` or `Failed` without a fresh start request.
#[derive(Clone, Copy, Debug, PartialEq, Eq, Structural)]
pub enum LifecycleState {
    NotStarted,
    Starting,
    Ready,
    Failed(FailureReason),
    Stopped,
}

/// What a start request resolves to once the endpoint has been probed:
/// attach to the instance already serving the endpoint, spawn a fresh
/// backend, or refuse because the supervisor requires an exclusive
/// instance.
#[derive(Clone, Copy, Debug, PartialEq, Eq, Structural)]
pub enum StartStep {
    AttachExisting,
    SpawnBackend,
    RefusedAlreadyRunning,
}

/// The answer of one readiness-poll attempt: the backend became ready on
/// this attempt, the poll should sleep one interval and try again, the
/// attempt budget is exhausted, or the wait was cancelled by a stop.
#[derive(Clone, Copy, Debug, PartialEq, Eq, Structural)]
pub enum PollVerdict {
    Ready,
    Continue,
    TimedOut,
    Cancelled,
}

/// The state a status query reports: the lifecycle state, except that a
/// backend that reached `Ready` but no longer answers its health check is
/// reported as not responding rather than ready.
#[derive(Clone, Copy, Debug, PartialEq, Eq, Structural)]
pub enum ReportedState {
    NotStarted,
    Starting,
    Ready,
    NotResponding,
    Failed(FailureReason),
    Stopped,
}

/// What a status query returns to the host: the reported state, the
/// endpoint the backend is expected at, and whether the supervisor is
/// attached to an instance it did not spawn.
pub struct StatusReport {
    pub state: ReportedState,
    pub host: String,
    pub port: u16,
    pub attached: bool,
}

/// The supervisor of one backend process.
///
/// It owns all lifecycle state and every decision of the control flow; the
/// unverified shell around it performs the blocking work (probing, HTTP
/// requests, spawning, sleeping, killing) and feeds each observed outcome
/// back in.  The two policy switches collapse the near-identical
/// supervisor variants into one: `http_health` selects TCP-plus-HTTP
/// readiness over TCP-only, and `exclusive` selects refusal over attachment
/// when the endpoint is already served.
pub struct Supervisor {
    pub endpoint: BackendEndpoint,
    pub health_path: String,
    pub interval_ms: u64,
    pub max_attempts: u32,
    pub http_health: bool,
    pub exclusive: bool,
    pub state: LifecycleState,
    pub handle: Option<BackendHandle>,
    pub attached: bool,
    pub attempts_made: u32,
}

impl Supervisor {
    /// Well-formedness: the attempt counter stays within its budget, and a
    /// process handle is held exactly in the states that own a spawned
    /// process — while starting, and while ready unless the supervisor
    /// merely attached to an instance it did not spawn.
    pub open spec fn wf(&self) -> bool {
        &&& self.max_attempts >= 1
        &&& self.interval_ms >= 1
        &&& self.attempts_made <= self.max_attempts
        &&& (self.state is Starting ==> self.handle is Some && self.attempts_made
            < self.max_attempts)
        &&& (self.handle is Some ==> self.state is Starting || self.state is Ready)
        &&& (self.state is Ready ==> self.handle is Some || self.attached)
        &&& (self.attached ==> self.handle is None && self.state is Ready)
    }

    /// The configuration fields, which no operation changes.
    pub open spec fn same_config(&self, other: &Supervisor) -> bool {
        &&& self.endpoint.host@ == other.endpoint.host@
        &&& self.endpoint.port == other.endpoint.port
        &&& self.health_path@ == other.health_path@
        &&& self.interval_ms == other.interval_ms
        &&& self.max_attempts == other.max_attempts
        &&& self.http_health == other.http_health
        &&& self.exclusive == other.exclusive
    }

    /// A supervisor for the given endpoint that has not started anything.
    pub fn new(
        endpoint: BackendEndpoint,
        health_path: String,
        interval_ms: u64,
        max_attempts: u32,
        http_health: bool,
        exclusive: bool,
    ) -> (s: Supervisor)
        requires
            max_attempts >= 1,
            interval_ms >= 1,
        ensures
            s.wf(),
            s.state == LifecycleState::NotStarted,
            s.handle is None,
            !s.attached,
            s.attempts_made == 0,
            s.endpoint.host@ == endpoint.host@,
            s.endpoint.port == endpoint.port,
            s.health_path@ == health_path@,
            s.interval_ms == interval_ms,
            s.max_attempts == max_attempts,
            s.http_health == http_health,
            s.exclusive == exclusive,
    {
        Supervisor {
            endpoint,
            health_path,
            interval_ms,
            max_attempts,
            http_health,
            exclusive,
            state: LifecycleState::NotStarted,
            handle: None,
            attached: false,
            attempts_made: 0,
        }
    }

    /// Resolve a start request against a pre-start probe of the endpoint.
    ///
    /// A reachable endpoint means an instance is already serving it: the
    /// supervisor attaches — it becomes ready at once, spawns nothing and
    /// holds no handle — unless it requires an exclusive instance, in which
    /// case the start fails as already running.  An unreachable endpoint
    /// directs the caller to spawn the backend.
    pub fn start_probe(&mut self, endpoint_reachable: bool) -> (step: StartStep)
        requires
            old(self).wf(),
            !(old(self).state is Starting),
            !(old(self).state is Ready),
        ensures
            final(self).wf(),
            final(self).same_config(old(self)),
            final(self).handle is None,
            endpoint_reachable && !old(self).exclusive ==> step == StartStep::AttachExisting
                && final(self).state == LifecycleState::Ready && final(self).attached,
            endpoint_reachable && old(self).exclusive ==> step == StartStep::RefusedAlreadyRunning
                && final(self).state == LifecycleState::Failed(FailureReason::AlreadyRunning)
                && !final(self).attached,
            !endpoint_reachable ==> step == StartStep::SpawnBackend
                && final(self).state == old(self).state && !final(self).attached
                && final(self).attempts_made == 0,
    {
        if endpoint_reachable {
            if self.exclusive {
                self.state = LifecycleState::Failed(FailureReason::AlreadyRunning);
                self.attached = false;
                StartStep::RefusedAlreadyRunning
            } else {
                self.state = LifecycleState::Ready;
                self.attached = true;
                self.attempts_made = 0;
                StartStep::AttachExisting
            }
        } else {
            self.attached = false;
            self.attempts_made = 0;
            StartStep::SpawnBackend
        }
    }

    /// Take in the outcome of the spawn the start requested.
    ///
    /// On success the supervisor enters `Starting`, holds the handle, and
    /// records the new process id in the termination record before control
    /// returns to the caller, closing the window in which a crash could
    /// leave a process whose id nothing knows.  On failure the start is
    /// aborted with the reported reason; the supervisor is never left in
    /// `Starting`.
    pub fn on_spawn_outcome(
        &mut self,
        record: &mut TerminationRecord,
        outcome: Result<BackendHandle, FailureReason>,
    )
        requires
            old(self).wf(),
            !(old(self).state is Starting),
            !(old(self).state is Ready),
        ensures
            final(self).wf(),
            final(self).same_config(old(self)),
            outcome matches Ok(h) ==> final(self).state == LifecycleState::Starting
                && final(self).handle == Some(h) && final(self).attempts_made == 0,
            outcome matches Ok(h) ==> final(record).pid == h.pid
                && final(record).cleanup_done == old(record).cleanup_done,
            outcome matches Err(e) ==> final(self).state == LifecycleState::Failed(e)
                && final(self).handle is None && *final(record) == *old(record),
            !final(self).attached,
            outcome is Err ==> !(final(self).state is Starting),
    {
        match outcome {
            Ok(h) => {
                record.record_spawn(h.pid);
                self.handle = Some(h);
                self.state = LifecycleState::Starting;
                self.attempts_made = 0;
                self.attached = false;
            },
            Err(e) => {
                self.handle = None;
                self.state = LifecycleState::Failed(e);
                self.attached = false;
            },
        }
    }
    /// Take in the observation of one readiness-poll attempt and decide
    /// how the wait goes on.
    ///
    /// An attempt observes readiness when the port accepted a connection
    /// and — if HTTP health checking is on — the health request succeeded;
    /// the first such attempt, and exactly that attempt, moves the
    /// supervisor to `Ready`.  An attempt that observes no readiness is
    /// merely counted: nothing of it is surfaced unless it was the last of
    /// the budget, which fails the start with `Timeout` and releases the
    /// handle (the process itself is left to come up or to be torn down
    /// later).  A supervisor no longer in `Starting` — stopped while the
    /// wait was underway — answers `Cancelled` and changes nothing, so the
    /// polling caller observes the cancellation promptly.
    pub fn poll_step(&mut self, port_open: bool, healthy: bool) -> (v: PollVerdict)
        requires
            old(self).wf(),
        ensures
            final(self).wf(),
            final(self).same_config(old(self)),
            (*final(self), v) == spec_poll_step(*old(self), port_open, healthy),
            v == PollVerdict::Ready <==> old(self).state is Starting && spec_ready_observed(
                *old(self),
                port_open,
                healthy,
            ),
            v == PollVerdict::Ready ==> final(self).state is Ready
                && final(self).handle == old(self).handle,
            v == PollVerdict::Continue ==> final(self).state is Starting
                && final(self).attempts_made == old(self).attempts_made + 1
                && final(self).attempts_made < old(self).max_attempts,
            v == PollVerdict::TimedOut ==> final(self).state == LifecycleState::Failed(
                FailureReason::Timeout,
            ) && final(self).handle is None,
            v == PollVerdict::Cancelled <==> !(old(self).state is Starting),
            v == PollVerdict::Cancelled ==> *final(self) == *old(self),
    {
        match self.state {
            LifecycleState::Starting => {
                let ready = port_open && (healthy || !self.http_health);
                if ready {
                    self.state = LifecycleState::Ready;
                    self.attempts_made = self.attempts_made + 1;
                    PollVerdict::Ready
                } else if self.attempts_made + 1 >= self.max_attempts {
                    self.state = LifecycleState::Failed(FailureReason::Timeout);
                    self.handle = None;
                    self.attempts_made = self.max_attempts;
                    PollVerdict::TimedOut
                } else {
                    self.attempts_made = self.attempts_made + 1;
                    PollVerdict::Continue
                }
            },
            _ => PollVerdict::Cancelled,
        }
    }

    /// Stop the backend: leave whatever state the supervisor was in for
    /// `Stopped`, release the handle, and tell the caller which process to
    /// terminate gracefully, if one is held.
    ///
    /// Safe to call any number of times: the first call does everything
    /// observable, every later call changes nothing and asks for no
    /// termination.
    pub fn stop(&mut self) -> (kill: Option<u32>)
        requires
            old(self).wf(),
        ensures
            final(self).wf(),
            final(self).same_config(old(self)),
            (*final(self), kill) == spec_stop(*old(self)),
            final(self).state == LifecycleState::Stopped,
            final(self).handle is None,
            !final(self).attached,
            old(self).handle matches Some(h) ==> kill == Some(h.pid),
            old(self).handle is None ==> kill is None,
            old(self).state is Stopped ==> *final(self) == *old(self) && kill is None,
    {
        let kill = match &self.handle {
            Some(h) => Some(h.pid),
            None => None,
        };
        self.handle = None;
        self.state = LifecycleState::Stopped;
        self.attached = false;
        kill
    }

    /// Whether a status query must re-check the backend's health before it
    /// answers: only a supervisor that believes itself ready can be stale.
    pub fn needs_health_recheck(&self) -> (r: bool)
        ensures
            r == (self.state is Ready),
    {
        matches!(self.state, LifecycleState::Ready)
    }

    /// Answer a status query.  `healthy_now` is the outcome of the health
    /// re-check the caller performed when `needs_health_recheck` said so;
    /// it is read only in `Ready`, where a backend that no longer answers
    /// is reported as not responding — staleness never masks a backend
    /// that died after becoming ready.  The query changes nothing.
    pub fn status_report(&self, healthy_now: bool) -> (r: StatusReport)
        ensures
            r.state == spec_reported_state(*self, healthy_now),
            r.host@ == self.endpoint.host@,
            r.port == self.endpoint.port,
            r.attached == self.attached,
            !(self.state is Ready) ==> r.state == spec_reported_state(*self, !healthy_now),
    {
        let state = match self.state {
            LifecycleState::NotStarted => ReportedState::NotStarted,
            LifecycleState::Starting => ReportedState::Starting,
            LifecycleState::Ready => if healthy_now {
                ReportedState::Ready
            } else {
                ReportedState::NotResponding
            },
            LifecycleState::Failed(reason) => ReportedState::Failed(reason),
            LifecycleState::Stopped => ReportedState::Stopped,
        };
        StatusReport {
            state,
            host: String::from_str(self.endpoint.host.as_str()),
            port: self.endpoint.port,
            attached: self.attached,
        }
    }

    /// The port of the supervised endpoint.
    pub fn port(&self) -> (p: u16)
        ensures
            p == self.endpoint.port,
    {
        self.endpoint.port
    }

    /// The current lifecycle state.
    pub fn current_state(&self) -> (s: LifecycleState)
        ensures
            s == self.state,
    {
        self.state
    }
}

/// Whether a pre-start probe of the endpoint means a backend instance is
/// already serving it, so that a second one must not be spawned.  A probe
/// succeeds only by connecting to the port, and nothing else of the
/// supervisor's answers that port, so a reachable endpoint is taken as an
/// already-running instance.
pub fn is_backend_already_running(endpoint_reachable: bool) -> (r: bool)
    ensures
        r == endpoint_reachable,
{
    endpoint_reachable
}

/// Classify one unsuccessful readiness observation for the log: a closed
/// port only means the backend has not bound yet, which is no error at
/// all; a reachable port whose health request did not succeed is a
/// transient health-check error — logged, never fatal, and retried within
/// the existing attempt budget.
pub fn observation_failure(port_open: bool, healthy: bool) -> (r: Option<FailureReason>)
    ensures
        port_open && !healthy ==> r == Some(FailureReason::HealthCheckError),
        !(port_open && !healthy) ==> r is None,
{
    if port_open && !healthy {
        Some(FailureReason::HealthCheckError)
    } else {
        None
    }
}

/// One readiness observation: the port accepted a connection, and — when
/// HTTP health checking is configured — the health request succeeded too.
pub open spec fn spec_ready_observed(s: Supervisor, port_open: bool, healthy: bool) -> bool {
    port_open && (healthy || !s.http_health)
}

/// One readiness-poll attempt on the supervisor's state: the supervisor
/// afterwards, and the verdict handed to the polling caller.
pub open spec fn spec_poll_step(s: Supervisor, port_open: bool, healthy: bool) -> (
    Supervisor,
    PollVerdict,
) {
    if !(s.state is Starting) {
        (s, PollVerdict::Cancelled)
    } else if spec_ready_observed(s, port_open, healthy) {
        (
            Supervisor {
                state: LifecycleState::Ready,
                attempts_made: (s.attempts_made + 1) as u32,
                ..s
            },
            PollVerdict::Ready,
        )
    } else if s.attempts_made + 1 >= s.max_attempts {
        (
            Supervisor {
                state: LifecycleState::Failed(FailureReason::Timeout),
                handle: None,
                attempts_made: s.max_attempts,
                ..s
            },
            PollVerdict::TimedOut,
        )
    } else {
        (
            Supervisor { attempts_made: (s.attempts_made + 1) as u32, ..s },
            PollVerdict::Continue,
        )
    }
}

/// A stop request on the supervisor's state: the supervisor afterwards,
/// and the process id to terminate gracefully, if a handle was held.
pub open spec fn spec_stop(s: Supervisor) -> (Supervisor, Option<u32>) {
    let stopped = Supervisor {
        state: LifecycleState::Stopped,
        handle: None,
        attached: false,
        ..s
    };
    match s.handle {
        Some(h) => (stopped, Some(h.pid)),
        None => (stopped, None),
    }
}

/// `n` stop requests in sequence.
pub open spec fn spec_stop_n(s: Supervisor, n: nat) -> Supervisor
    decreases n,
{
    if n == 0 {
        s
    } else {
        spec_stop_n(spec_stop(s).0, (n - 1) as nat)
    }
}

/// The state a status query reports, given the current lifecycle state
/// and the health re-check's outcome.
pub open spec fn spec_reported_state(s: Supervisor, healthy_now: bool) -> ReportedState {
    match s.state {
        LifecycleState::NotStarted => ReportedState::NotStarted,
        LifecycleState::Starting => ReportedState::Starting,
        LifecycleState::Ready => if healthy_now {
            ReportedState::Ready
        } else {
            ReportedState::NotResponding
        },
        LifecycleState::Failed(reason) => ReportedState::Failed(reason),
        LifecycleState::Stopped => ReportedState::Stopped,
    }
}

/// Stopping is idempotent: any number of stop requests (one or more)
/// leaves the supervisor exactly as one request does, and every request
/// after the first asks for no termination.
pub proof fn lemma_stop_idempotent(s: Supervisor, n: nat)
    requires
        n >= 1,
    ensures
        spec_stop_n(s, n) == spec_stop(s).0,
        spec_stop(spec_stop(s).0).1 is None,
    decreases n,
{
    if n == 1 {
        assert(spec_stop_n(spec_stop(s).0, 0) == spec_stop(s).0);
    } else {
        lemma_stop_idempotent(spec_stop(s).0, (n - 1) as nat);
        assert(spec_stop(spec_stop(s).0).0 == spec_stop(s).0);
    }
}

/// A sequence of readiness observations, each poll attempt's pair of
/// port-open and healthy outcomes, applied in order.
pub open spec fn spec_run_poll(s: Supervisor, obs: Seq<(bool, bool)>) -> Supervisor
    decreases obs.len(),
{
    if obs.len() == 0 {
        s
    } else {
        spec_run_poll(spec_poll_step(s, obs.first().0, obs.first().1).0, obs.drop_first())
    }
}

/// A supervisor that is not waiting for readiness is left untouched by any
/// sequence of poll attempts: every attempt is answered `Cancelled`.
pub proof fn lemma_poll_terminal_stable(s: Supervisor, obs: Seq<(bool, bool)>)
    requires
        !(s.state is Starting),
    ensures
        spec_run_poll(s, obs) == s,
    decreases obs.len(),
{
    if obs.len() > 0 {
        lemma_poll_terminal_stable(s, obs.drop_first());
    }
}

/// The readiness wait is bounded by its attempt budget: however the
/// observations fall, after at most `max_attempts` poll attempts (minus
/// those already made) the supervisor has left `Starting` — it became
/// ready, timed out, or was stopped — so the poll loop never runs
/// unbounded.
pub proof fn lemma_poll_attempts_bounded(s: Supervisor, obs: Seq<(bool, bool)>)
    requires
        s.wf(),
        obs.len() >= s.max_attempts - s.attempts_made,
    ensures
        !(spec_run_poll(s, obs).state is Starting),
    decreases obs.len(),
{
    if !(s.state is Starting) {
        lemma_poll_terminal_stable(s, obs);
    } else {
        let stepped = spec_poll_step(s, obs.first().0, obs.first().1).0;
        if stepped.state is Starting {
            lemma_poll_attempts_bounded(stepped, obs.drop_first());
        } else {
            lemma_poll_terminal_stable(stepped, obs.drop_first());
        }
    }
}

/// How many of the observations a run of poll attempts actually consumes:
/// an attempt answered `Cancelled` touches nothing and is not an attempt
/// at all.
pub open spec fn spec_poll_attempt_count(s: Supervisor, obs: Seq<(bool, bool)>) -> nat
    decreases obs.len(),
{
    if obs.len() == 0 {
        0
    } else {
        let step = spec_poll_step(s, obs.first().0, obs.first().1);
        spec_poll_attempt_count(step.0, obs.drop_first()) + if step.1 is Cancelled {
            0nat
        } else {
            1nat
        }
    }
}

/// However many observations are offered, the readiness wait makes at most
/// `max_attempts` poll attempts beyond those already made — so a wait whose
/// budget is the ceiling of timeout over interval makes at most that many
/// attempts, ever.
pub proof fn lemma_poll_attempt_count_bounded(s: Supervisor, obs: Seq<(bool, bool)>)
    requires
        s.wf(),
    ensures
        spec_poll_attempt_count(s, obs) <= s.max_attempts - s.attempts_made,
    decreases obs.len(),
{
    if obs.len() > 0 {
        let stepped = spec_poll_step(s, obs.first().0, obs.first().1).0;
        lemma_poll_attempt_count_bounded(stepped, obs.drop_first());
    }
}

/// The attempt budget that covers a timeout: how many attempts, one per
/// interval, the readiness wait may make — the least count whose combined
/// waiting reaches the timeout.
pub open spec fn spec_attempt_budget(timeout_ms: int, interval_ms: int) -> int {
    (timeout_ms + interval_ms - 1) / interval_ms
}

/// Compute the attempt budget for a timeout and a poll interval, both in
/// milliseconds.
pub fn attempt_budget(timeout_ms: u64, interval_ms: u64) -> (n: u64)
    requires
        interval_ms >= 1,
        timeout_ms + interval_ms - 1 <= u64::MAX,
    ensures
        n == spec_attempt_budget(timeout_ms as int, interval_ms as int),
{
    (timeout_ms + (interval_ms - 1)) / interval_ms
}

/// The attempt budget is the ceiling of timeout over interval: its
/// combined waiting covers the timeout, and stays under the timeout plus
/// one further interval — a wait that runs the budget out never blocks
/// longer than that.
pub proof fn lemma_attempt_budget_ceiling(timeout_ms: int, interval_ms: int)
    requires
        timeout_ms >= 0,
        interval_ms >= 1,
    ensures
        spec_attempt_budget(timeout_ms, interval_ms) * interval_ms >= timeout_ms,
        spec_attempt_budget(timeout_ms, interval_ms) * interval_ms < timeout_ms + interval_ms,
        timeout_ms > 0 ==> (spec_attempt_budget(timeout_ms, interval_ms) - 1) * interval_ms
            < timeout_ms,
{
    let x = timeout_ms + interval_ms - 1;
    let q = x / interval_ms;
    let r = x % interval_ms;
    lemma_fundamental_div_mod(x, interval_ms);
    lemma_mod_division_less_than_divisor(x, interval_ms);
    assert(interval_ms * q == x - r);
    assert(q * interval_ms == interval_ms * q) by (nonlinear_arith);
    assert((q - 1) * interval_ms == q * interval_ms - interval_ms) by (nonlinear_arith);
}

} // verus!
