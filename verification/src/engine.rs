//! The engine around the statistics store: what a worker records per
//! iteration, the startup probe, the aggregator's publish-and-reset cycle
//! with its shutdown grace period, and the shutdown flag.
//!
//! The request itself is I/O and happens outside the library; a worker
//! hands in the outcome of one attempt and this module records it.

use vstd::prelude::*;
use vstd::string::StringExecFns;
use crate::stats::{Statistic, count_of, counters_le};
use crate::ring::fifo_push;

verus! {

/// The outcome of one request attempt, as a worker observes it.
pub enum RequestOutcome {
    /// An HTTP response arrived with this status code. Error-range codes
    /// are successful completions from the engine's point of view.
    Response(u16),
    /// No HTTP status was received: connection, TLS or timeout failure,
    /// rendered as a message.
    TransportError(String),
}

/// What a worker does after its admission and shutdown checks.
pub enum WorkerAction {
    /// The shutdown flag is set: leave the loop.
    Exit,
    /// Issue one request to the target.
    Request,
}

/// The broadcast shutdown signal: written once, read by every component.
pub struct ShutdownFlag {
    /// Whether shutdown has been requested.
    pub stopped: bool,
}

impl ShutdownFlag {
    /// A run starts with shutdown not requested.
    pub fn new() -> (r: ShutdownFlag)
        ensures
            !r.stopped,
    {
        ShutdownFlag { stopped: false }
    }

    /// Requests shutdown. Idempotent: the flag is set afterwards whatever
    /// it held before, and a repeated request changes nothing.
    pub fn request(&mut self)
        ensures
            final(self).stopped,
    {
        self.stopped = true;
    }

    /// Reads the flag.
    pub fn is_stopped(&self) -> (r: bool)
        ensures
            r == self.stopped,
    {
        self.stopped
    }
}

/// A worker's decision once it holds admission: the shutdown flag alone
/// stops it; errors never do.
pub fn worker_decide(stop: bool) -> (a: WorkerAction)
    ensures
        a == if stop {
            WorkerAction::Exit
        } else {
            WorkerAction::Request
        },
{
    if stop {
        WorkerAction::Exit
    } else {
        WorkerAction::Request
    }
}

/// Relies on `chrono::Local::now` and `DateTime::format`: a wall-clock
/// `HH:MM:SS` timestamp. Its value depends on the time of the call, so
/// only its width is promised: hour, minute and second each render as two
/// zero-padded digits, with two separating colons.
#[verifier::external_body]
fn local_time_hms() -> (r: String)
    ensures
        r@.len() == 8,
{
    chrono::Local::now().format("%H:%M:%S").to_string()
}

/// An error record: the timestamp, a separator, the message.
pub fn format_error_record(timestamp: &str, message: &str) -> (r: String)
    ensures
        r@ == timestamp@ + "| "@ + message@,
{
    let mut r = String::from_str(timestamp);
    r.append("| ");
    r.append(message);
    r
}

/// Whether `record_outcome` may count this outcome without overrunning a
/// machine-width counter.
pub fn can_record_outcome(stats: &Statistic, outcome: &RequestOutcome) -> (r: bool)
    ensures
        r == match *outcome {
            RequestOutcome::Response(code) => count_of(stats@.codes, code) < usize::MAX
                && stats@.cps < usize::MAX,
            RequestOutcome::TransportError(_) => stats@.other_err < usize::MAX
                && stats@.cps < usize::MAX,
        },
{
    match outcome {
        RequestOutcome::Response(code) => stats.can_count_response(*code),
        RequestOutcome::TransportError(_) => stats.can_count_failure(),
    }
}

/// Records the outcome of one completed attempt into the live statistics.
///
/// A response counts under its status code; a transport failure counts
/// under `other_err` and joins the recent-error log with a timestamp. The
/// window counter counts both: it measures completed attempts, not just
/// successes.
pub fn record_outcome(stats: &mut Statistic, outcome: RequestOutcome)
    requires
        outcome matches RequestOutcome::Response(code) ==> count_of(
            old(stats)@.codes,
            code,
        ) < usize::MAX,
        outcome matches RequestOutcome::TransportError(m) ==> old(stats)@.other_err < usize::MAX,
        old(stats)@.cps < usize::MAX,
    ensures
        final(stats)@.cps == old(stats)@.cps + 1,
        outcome matches RequestOutcome::Response(code) ==> {
            &&& final(stats)@.codes == old(stats)@.codes.insert(
                code,
                (count_of(old(stats)@.codes, code) + 1) as usize,
            )
            &&& final(stats)@.other_err == old(stats)@.other_err
            &&& final(stats)@.log == old(stats)@.log
        },
        outcome matches RequestOutcome::TransportError(m) ==> {
            &&& final(stats)@.codes == old(stats)@.codes
            &&& final(stats)@.other_err == old(stats)@.other_err + 1
            &&& exists|ts: Seq<char>|
                ts.len() == 8 && final(stats)@.log == fifo_push(old(stats)@.log, ts + "| "@ + m@)
        },
        counters_le(old(stats)@, final(stats)@),
        old(stats).wf() ==> final(stats).wf(),
{
    match outcome {
        RequestOutcome::Response(code) => {
            stats.record_response(code);
        }
        RequestOutcome::TransportError(message) => {
            let timestamp = local_time_hms();
            let record = format_error_record(timestamp.as_str(), message.as_str());
            stats.record_failure(record);
            proof {
                assert(timestamp@.len() == 8 && stats@.log == fifo_push(
                    old(stats)@.log,
                    timestamp@ + "| "@ + message@,
                ));
            }
        }
    }
}

/// The startup probe: one synchronous request before any worker spawns.
///
/// Any HTTP status, error codes included, is a completed probe: it is
/// recorded and the run proceeds. A transport failure is the one fatal
/// path: nothing is recorded and the error message comes back, so that the
/// process can exit before a single worker starts.
pub fn record_probe(stats: &mut Statistic, outcome: RequestOutcome) -> (r: Result<(), String>)
    requires
        outcome matches RequestOutcome::Response(code) ==> count_of(
            old(stats)@.codes,
            code,
        ) < usize::MAX && old(stats)@.cps < usize::MAX,
    ensures
        outcome matches RequestOutcome::Response(code) ==> {
            &&& r is Ok
            &&& final(stats)@.codes == old(stats)@.codes.insert(
                code,
                (count_of(old(stats)@.codes, code) + 1) as usize,
            )
            &&& final(stats)@.cps == old(stats)@.cps + 1
            &&& final(stats)@.other_err == old(stats)@.other_err
            &&& final(stats)@.log == old(stats)@.log
        },
        outcome matches RequestOutcome::TransportError(m) ==> {
            &&& final(stats)@ == old(stats)@
            &&& r matches Err(e) && e == m
        },
        old(stats).wf() ==> final(stats).wf(),
{
    match outcome {
        RequestOutcome::Response(code) => {
            stats.record_response(code);
            Ok(())
        }
        RequestOutcome::TransportError(message) => Err(message),
    }
}

} // verus!
