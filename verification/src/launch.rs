use vstd::prelude::*;
use crate::errors::FailureReason;

verus! {

/// Reference to a spawned backend process: its OS process id, the working
/// directory it was started in (the executable's containing directory), and
/// the moment the spawn was accepted, in milliseconds of the host's clock.
/// The library never reads a clock; the shell supplies the timestamp.
pub struct BackendHandle {
    pub pid: u32,
    pub working_dir: String,
    pub started_at_ms: u64,
}

/// The pre-spawn rules of the launcher: the executable must be locatable,
/// and execute permission must have been ensured on it, before a spawn is
/// attempted.  The shell performs the two checks and feeds their outcomes
/// in; a launch plan is refused with the reason of the first failing check,
/// so a missing executable is reported before (and without) any spawn.
pub fn plan_launch(exe_found: bool, perm_ensured: bool) -> (r: Result<(), FailureReason>)
    ensures
        !exe_found ==> r == Err::<(), FailureReason>(FailureReason::ResourceNotFound),
        exe_found && !perm_ensured ==> r == Err::<(), FailureReason>(FailureReason::NotExecutable),
        exe_found && perm_ensured ==> r == Ok::<(), FailureReason>(()),
{
    if !exe_found {
        Err(FailureReason::ResourceNotFound)
    } else if !perm_ensured {
        Err(FailureReason::NotExecutable)
    } else {
        Ok(())
    }
}

/// The answer of the OS to a spawn request, turned into a handle or the
/// failure it is reported as: a refused spawn is `SpawnFailed`, an accepted
/// one yields a handle carrying the new process id.
pub fn spawn_outcome(pid: Option<u32>, working_dir: String, started_at_ms: u64) -> (r: Result<
    BackendHandle,
    FailureReason,
>)
    ensures
        pid is None ==> r == Err::<BackendHandle, FailureReason>(FailureReason::SpawnFailed),
        pid matches Some(p) ==> r matches Ok(h) && h.pid == p && h.working_dir@ == working_dir@
            && h.started_at_ms == started_at_ms,
{
    match pid {
        Some(p) => Ok(BackendHandle { pid: p, working_dir, started_at_ms }),
        None => Err(FailureReason::SpawnFailed),
    }
}

/// The containing directory of a `/`-separated path: everything before the
/// last separator, or nothing if the path has no separator.
pub fn parent_dir(path: &str) -> (r: Option<String>)
    ensures
        match r {
            Some(d) => {
                exists|i: int|
                    {
                        &&& 0 <= i < path@.len()
                        &&& path@[i] == '/'
                        &&& d@ == path@.subrange(0, i)
                        &&& forall|k: int| i < k < path@.len() ==> path@[k] != '/'
                    }
            },
            None => forall|k: int| 0 <= k < path@.len() ==> path@[k] != '/',
        },
{
    let n = path.unicode_len();
    let mut i: usize = n;
    while i > 0
        invariant
            n == path@.len(),
            0 <= i <= n,
            forall|k: int| i <= k < n ==> path@[k] != '/',
        decreases i,
    {
        let c = path.get_char(i - 1);
        if c == '/' {
            let d = path.substring_char(0, i - 1);
            return Some(String::from_str(d));
        }
        i = i - 1;
    }
    None
}

} // verus!
