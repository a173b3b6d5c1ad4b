use vstd::prelude::*;
use crate::termination::TerminationRecord;
use crate::textscan::contains_seq;
use crate::textscan::str_contains;

verus! {

/// One event observed on the spawned process's output streams: a line from
/// either stream, a stream-level error, or the end of the process.
pub enum OutputEvent {
    StdoutLine(String),
    StderrLine(String),
    StreamError(String),
    Terminated,
}

/// What the relay does with one event: forward the line to the log sink at
/// the given severity, drop it as noise, or note that the process ended.
#[derive(Clone, Copy, Debug, PartialEq, Eq, Structural)]
pub enum RelayDisposition {
    ForwardInfo,
    ForwardWarning,
    Suppress,
    ProcessEnded,
}

/// Standard-output lines that are known-noisy startup banners of the
/// backend server, dropped rather than forwarded.
pub open spec fn stdout_noise(line: Seq<char>) -> bool {
    ||| contains_seq(line, "Started server process"@)
    ||| contains_seq(line, "Waiting for application startup"@)
    ||| contains_seq(line, "Application startup complete"@)
}

/// Standard-error lines that carry an error marker; the backend logs
/// routine information to standard error, so only these are surfaced.
pub open spec fn stderr_error_marker(line: Seq<char>) -> bool {
    ||| contains_seq(line, "ERROR"@)
    ||| contains_seq(line, "error"@)
    ||| contains_seq(line, "Exception"@)
}

/// The disposition of one output event: noisy stdout banners and
/// unremarkable stderr lines are suppressed, marked stderr lines and
/// stream errors are surfaced as warnings, other stdout lines as
/// informational output.
pub open spec fn spec_disposition(ev: OutputEvent) -> RelayDisposition {
    match ev {
        OutputEvent::StdoutLine(l) => if stdout_noise(l@) {
            RelayDisposition::Suppress
        } else {
            RelayDisposition::ForwardInfo
        },
        OutputEvent::StderrLine(l) => if stderr_error_marker(l@) {
            RelayDisposition::ForwardWarning
        } else {
            RelayDisposition::Suppress
        },
        OutputEvent::StreamError(_) => RelayDisposition::ForwardWarning,
        OutputEvent::Terminated => RelayDisposition::ProcessEnded,
    }
}

/// Decide what to do with one output event.
pub fn relay_disposition(ev: &OutputEvent) -> (d: RelayDisposition)
    ensures
        d == spec_disposition(*ev),
{
    match ev {
        OutputEvent::StdoutLine(l) => {
            let noisy = str_contains(l.as_str(), "Started server process")
                || str_contains(l.as_str(), "Waiting for application startup")
                || str_contains(l.as_str(), "Application startup complete");
            if noisy {
                RelayDisposition::Suppress
            } else {
                RelayDisposition::ForwardInfo
            }
        },
        OutputEvent::StderrLine(l) => {
            let marked = str_contains(l.as_str(), "ERROR")
                || str_contains(l.as_str(), "error")
                || str_contains(l.as_str(), "Exception");
            if marked {
                RelayDisposition::ForwardWarning
            } else {
                RelayDisposition::Suppress
            }
        },
        OutputEvent::StreamError(_) => RelayDisposition::ForwardWarning,
        OutputEvent::Terminated => RelayDisposition::ProcessEnded,
    }
}

/// Handle one output event: decide its disposition, and forget the recorded
/// process id once the process is known to have terminated, so that a later
/// cleanup trigger does not kill a process that already exited.
pub fn handle_output_event(record: &mut TerminationRecord, ev: &OutputEvent) -> (d:
    RelayDisposition)
    ensures
        d == spec_disposition(*ev),
        *ev is Terminated ==> final(record).pid == 0 && final(record).cleanup_done == old(
            record,
        ).cleanup_done,
        !(*ev is Terminated) ==> *final(record) == *old(record),
{
    let d = relay_disposition(ev);
    match ev {
        OutputEvent::Terminated => {
            record.clear_pid();
        },
        _ => {
        },
    }
    d
}

} // verus!
