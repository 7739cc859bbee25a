//! Per-item retry with backoff: the transfer worker's state machine,
//! with states attempting, backoff, succeeded and failed.
//!
//! A rate-limit error (a service quota signature or an HTTP 429
//! signature in the error text) backs off linearly, ten seconds times
//! the attempt number; any other error backs off exponentially,
//! starting at one second and capped at sixty. After the retry budget
//! is spent, the task is reported as failed with its last error.

use vstd::prelude::*;
use crate::data::{TransferOutcome, MAX_RETRIES, opt_str_view};
use crate::text::{contains_sub, spec_contains_sub};

verus! {

/// The error text carries one of the service's rate-limit signatures.
pub open spec fn spec_is_rate_limit(t: Seq<char>) -> bool {
    ||| spec_contains_sub(t, "rateLimitExceeded"@)
    ||| spec_contains_sub(t, "userRateLimitExceeded"@)
    ||| spec_contains_sub(t, "429"@)
}

/// Classifies an error's text: true means a rate-limit condition,
/// answered with linear backoff rather than exponential.
pub fn is_rate_limit_error(text: &str) -> (r: bool)
    ensures
        r == spec_is_rate_limit(text@),
{
    contains_sub(text, "rateLimitExceeded") || contains_sub(text, "userRateLimitExceeded")
        || contains_sub(text, "429")
}

/// Where one transfer stands.
#[derive(Clone, Copy, PartialEq, Eq, Structural, Debug)]
pub enum WorkerPhase {
    /// An attempt is in flight.
    Attempting,
    /// The last attempt failed; the worker waits before retrying.
    Backoff,
    /// The transfer completed.
    Succeeded,
    /// The retry budget is spent; the last error stands.
    Failed,
}

/// The retry/backoff state machine for one transfer task. The caller
/// performs the attempts and the sleeps; this machine decides, after
/// each attempt, whether to back off and for how long, or to stop.
pub struct TransferWorker {
    phase: WorkerPhase,
    attempts: u32,
    next_backoff_secs: u64,
    sleep_secs: u64,
    bytes: u64,
    error: Option<String>,
}

impl TransferWorker {
    /// Where the worker stands.
    pub closed spec fn phase(self) -> WorkerPhase {
        self.phase
    }

    /// Failed attempts answered with a retry so far; each one
    /// incremented the run's shared retry counter.
    pub closed spec fn attempts(self) -> u32 {
        self.attempts
    }

    /// The exponential schedule's next delay, in seconds.
    pub closed spec fn next_backoff_secs(self) -> u64 {
        self.next_backoff_secs
    }

    /// The pending delay while in backoff, in seconds.
    pub closed spec fn sleep_secs(self) -> u64 {
        self.sleep_secs
    }

    /// Bytes moved by the successful attempt.
    pub closed spec fn bytes_moved(self) -> u64 {
        self.bytes
    }

    /// The last error's text.
    pub closed spec fn error_view(self) -> Option<Seq<char>> {
        opt_str_view(self.error)
    }

    /// The machine's invariant: the retry count stays within budget,
    /// the exponential delay stays in `[1, 60]`, and a spent budget or
    /// a pending delay is only reached with the matching bookkeeping.
    pub closed spec fn wf(self) -> bool {
        &&& self.attempts <= MAX_RETRIES
        &&& 1 <= self.next_backoff_secs <= 60
        &&& self.sleep_secs <= 60
        &&& self.phase is Failed ==> self.error is Some
    }

    /// A fresh worker: attempting, no retries yet, exponential delay
    /// starting at one second.
    pub fn new() -> (w: TransferWorker)
        ensures
            w.wf(),
            w.phase() is Attempting,
            w.attempts() == 0,
            w.next_backoff_secs() == 1,
            w.bytes_moved() == 0,
            w.error_view() is None,
    {
        TransferWorker {
            phase: WorkerPhase::Attempting,
            attempts: 0,
            next_backoff_secs: 1,
            sleep_secs: 0,
            bytes: 0,
            error: None,
        }
    }

    /// The attempt in flight succeeded, moving the given number of
    /// bytes: the worker is done.
    pub fn on_success(&mut self, bytes: u64)
        requires
            old(self).wf(),
            old(self).phase() is Attempting,
        ensures
            final(self).wf(),
            final(self).phase() is Succeeded,
            final(self).bytes_moved() == bytes,
            final(self).attempts() == old(self).attempts(),
            final(self).error_view() is None,
    {
        self.phase = WorkerPhase::Succeeded;
        self.bytes = bytes;
        self.error = None;
    }

    /// The attempt in flight failed with the given error text. Within
    /// the retry budget the worker classifies the error and enters
    /// backoff: linear (ten seconds times the attempt number) for a
    /// rate-limit error, the exponential schedule otherwise, which then
    /// doubles, capped at sixty seconds. Past the budget the worker
    /// fails, keeping this error.
    pub fn on_failure(&mut self, error_text: String)
        requires
            old(self).wf(),
            old(self).phase() is Attempting,
        ensures
            final(self).wf(),
            ({
                let rate = spec_is_rate_limit(error_text@);
                if old(self).attempts() < MAX_RETRIES {
                    &&& final(self).phase() is Backoff
                    &&& final(self).attempts() == old(self).attempts() + 1
                    &&& final(self).sleep_secs() == (if rate {
                        10 * (old(self).attempts() + 1)
                    } else {
                        old(self).next_backoff_secs() as int
                    })
                    &&& final(self).next_backoff_secs() == (if 2 * final(self).sleep_secs() < 60 {
                        2 * final(self).sleep_secs()
                    } else {
                        60int
                    })
                    &&& final(self).error_view() == Some(error_text@)
                } else {
                    &&& final(self).phase() is Failed
                    &&& final(self).attempts() == old(self).attempts()
                    &&& final(self).error_view() == Some(error_text@)
                }
            }),
            final(self).bytes_moved() == old(self).bytes_moved(),
    {
        if self.attempts < MAX_RETRIES {
            let rate = is_rate_limit_error(error_text.as_str());
            self.attempts = self.attempts + 1;
            let sleep: u64 = if rate {
                10 * (self.attempts as u64)
            } else {
                self.next_backoff_secs
            };
            self.sleep_secs = sleep;
            self.next_backoff_secs = if 2 * sleep < 60 {
                2 * sleep
            } else {
                60
            };
            self.phase = WorkerPhase::Backoff;
            self.error = Some(error_text);
        } else {
            self.phase = WorkerPhase::Failed;
            self.error = Some(error_text);
        }
    }

    /// The attempt failed on local I/O — the source file cannot be
    /// opened or the staging file cannot be created. Such a failure is
    /// not retryable: the task fails at once, for this item only.
    pub fn on_local_failure(&mut self, error_text: String)
        requires
            old(self).wf(),
            old(self).phase() is Attempting,
        ensures
            final(self).wf(),
            final(self).phase() is Failed,
            final(self).attempts() == old(self).attempts(),
            final(self).error_view() == Some(error_text@),
            final(self).bytes_moved() == old(self).bytes_moved(),
            final(self).next_backoff_secs() == old(self).next_backoff_secs(),
    {
        self.phase = WorkerPhase::Failed;
        self.error = Some(error_text);
    }

    /// How long to wait before the next attempt.
    pub fn backoff_secs(&self) -> (d: u64)
        requires
            self.phase() is Backoff,
        ensures
            d == self.sleep_secs(),
    {
        self.sleep_secs
    }

    /// The backoff has been served: attempt again.
    pub fn resume(&mut self)
        requires
            old(self).wf(),
            old(self).phase() is Backoff,
        ensures
            final(self).wf(),
            final(self).phase() is Attempting,
            final(self).attempts() == old(self).attempts(),
            final(self).next_backoff_secs() == old(self).next_backoff_secs(),
            final(self).bytes_moved() == old(self).bytes_moved(),
            final(self).error_view() == old(self).error_view(),
    {
        self.phase = WorkerPhase::Attempting;
    }

    /// Where the worker stands, for the caller's loop.
    pub fn current_phase(&self) -> (p: WorkerPhase)
        ensures
            p == self.phase(),
    {
        self.phase
    }

    /// The task's outcome: exactly one per task, produced once the
    /// worker has succeeded or failed.
    pub fn into_outcome(self, name: String) -> (o: TransferOutcome)
        requires
            self.wf(),
            self.phase() is Succeeded || self.phase() is Failed,
        ensures
            o.wf(),
            o.name@ == name@,
            o.succeeded == (self.phase() is Succeeded),
            o.retries == self.attempts(),
            o.bytes == self.bytes_moved(),
            o.succeeded ==> o.error is None,
            !o.succeeded ==> opt_str_view(o.error) == self.error_view(),
    {
        let succeeded = match self.phase {
            WorkerPhase::Succeeded => true,
            _ => false,
        };
        TransferOutcome {
            name,
            succeeded,
            error: if succeeded {
                None
            } else {
                self.error
            },
            retries: self.attempts,
            bytes: self.bytes,
        }
    }
}

} // verus!
