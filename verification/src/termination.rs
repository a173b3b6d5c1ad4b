use vstd::prelude::*;

verus! {

/// Process-wide record shared between the supervisor's normal control flow
/// and its out-of-band termination triggers (panic hook, signal handler,
/// shutdown event).
///
/// It holds the last known backend process id (`0` meaning "no process")
/// and a one-shot flag recording that forceful cleanup has been performed.
/// The unverified shell stores this data in lock-free atomics; every
/// decision made on it goes through the methods below, so the one-shot
/// guarantee is the guarantee of `begin_cleanup`.
pub struct TerminationRecord {
    pub pid: u32,
    pub cleanup_done: bool,
}

/// One cleanup trigger firing on a record: the record afterwards, and the
/// process id to kill forcefully, if any.
///
/// The flag is tested and set first, so a second trigger finds it set and
/// does nothing; a trigger that finds no recorded process id still consumes
/// the one shot, exactly as a test-and-set on the flag behaves.
pub open spec fn spec_cleanup(r: TerminationRecord) -> (TerminationRecord, Option<u32>) {
    if r.cleanup_done {
        (r, None)
    } else if r.pid != 0 {
        (TerminationRecord { pid: r.pid, cleanup_done: true }, Some(r.pid))
    } else {
        (TerminationRecord { pid: r.pid, cleanup_done: true }, None)
    }
}

/// `n` cleanup triggers firing in sequence: the record afterwards, and how
/// many of the triggers were told to kill the process.
pub open spec fn spec_cleanup_kills(r: TerminationRecord, n: nat) -> nat
    decreases n,
{
    if n == 0 {
        0
    } else {
        let first = spec_cleanup(r);
        spec_cleanup_kills(first.0, (n - 1) as nat) + if first.1 is Some {
            1nat
        } else {
            0nat
        }
    }
}

impl TerminationRecord {
    /// A fresh record: no known process, cleanup not yet performed.
    pub fn new() -> (r: TerminationRecord)
        ensures
            r.pid == 0,
            !r.cleanup_done,
    {
        TerminationRecord { pid: 0, cleanup_done: false }
    }

    /// Record the process id of a freshly spawned backend.
    pub fn record_spawn(&mut self, pid: u32)
        ensures
            final(self).pid == pid,
            final(self).cleanup_done == old(self).cleanup_done,
    {
        self.pid = pid;
    }

    /// Forget the process id once the backend is known to have exited.
    pub fn clear_pid(&mut self)
        ensures
            final(self).pid == 0,
            final(self).cleanup_done == old(self).cleanup_done,
    {
        self.pid = 0;
    }

    /// One cleanup trigger: test-and-set the one-shot flag, and return the
    /// process id to kill if this trigger is the one that performs cleanup.
    ///
    /// Returns `Some(pid)` exactly when cleanup had not been performed yet
    /// and a process id was recorded; afterwards the flag is always set, so
    /// every later trigger returns `None` and changes nothing.
    pub fn begin_cleanup(&mut self) -> (kill: Option<u32>)
        ensures
            (*final(self), kill) == spec_cleanup(*old(self)),
            final(self).cleanup_done,
            final(self).pid == old(self).pid,
            kill is Some <==> (!old(self).cleanup_done && old(self).pid != 0),
            kill is Some ==> kill == Some(old(self).pid),
    {
        if self.cleanup_done {
            None
        } else {
            self.cleanup_done = true;
            if self.pid != 0 {
                Some(self.pid)
            } else {
                None
            }
        }
    }
}

/// Once cleanup has been performed, no later sequence of triggers kills
/// anything.
pub proof fn lemma_cleanup_never_reenters(r: TerminationRecord, n: nat)
    requires
        r.cleanup_done,
    ensures
        spec_cleanup_kills(r, n) == 0,
    decreases n,
{
    if n > 0 {
        lemma_cleanup_never_reenters(spec_cleanup(r).0, (n - 1) as nat);
    }
}

/// The forceful-kill action is taken exactly once across any number of
/// cleanup triggers (one or more), and only if a process id was recorded
/// before the first trigger and cleanup had not already run; in every other
/// case it is taken by no trigger at all.
pub proof fn lemma_cleanup_one_shot(r: TerminationRecord, n: nat)
    requires
        n >= 1,
    ensures
        spec_cleanup_kills(r, n) == if !r.cleanup_done && r.pid != 0 {
            1nat
        } else {
            0nat
        },
    decreases n,
{
    let first = spec_cleanup(r);
    if r.cleanup_done {
        lemma_cleanup_never_reenters(r, n);
    } else {
        lemma_cleanup_never_reenters(first.0, (n - 1) as nat);
    }
}

} // verus!
