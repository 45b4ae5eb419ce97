//! What becomes of a job.
use std::time::Duration;
use vstd::arithmetic::power2::{lemma2_to64, lemma_pow2_strictly_increases, pow2};
use vstd::prelude::*;

use crate::client::RetryDirective;
use crate::time;
use crate::worker::HandlerError;

verus! {

/// How a handler came to its end.
#[derive(Debug)]
pub enum HandlerEnd {
    /// It returned.
    Returned(Result<(), HandlerError>),
    /// It panicked.
    Panicked,
    /// It was aborted because the lease on its job was lost.
    Aborted,
}

/// What to tell the server of a job.
#[derive(Debug)]
pub enum Verdict {
    /// The job is done.
    Ack,
    /// The job failed.
    Nack {
        /// How the job should be retried.
        retry: RetryDirective,
        /// Why it failed.
        reason: String,
    },
}

/// The seconds before a job is delivered again that this worker could not
/// process: `min(2^attempt, 60)`.
pub open spec fn backoff_secs(attempt: u32) -> nat {
    if pow2(attempt as nat) < 60 {
        pow2(attempt as nat)
    } else {
        60
    }
}

/// Exponential backoff for the worker's own nacks (no registered handler,
/// panicked handler): `min(2^attempt, 60)` seconds, with `attempt` counted from
/// one.
pub fn nack_backoff(attempt: u32) -> (d: Duration)
    ensures
        time::duration_nanos(d) == backoff_secs(attempt) * 1_000_000_000,
{
    proof {
        lemma2_to64();
        if attempt > 6 {
            lemma_pow2_strictly_increases(6, attempt as nat);
        }
    }
    let secs: u64 = if attempt == 0 {
        1
    } else if attempt == 1 {
        2
    } else if attempt == 2 {
        4
    } else if attempt == 3 {
        8
    } else if attempt == 4 {
        16
    } else if attempt == 5 {
        32
    } else {
        60
    };
    Duration::from_secs(secs)
}

/// The backoff never shrinks from one attempt to the next, and is at most a
/// minute.
pub proof fn backoff_grows(a: u32, b: u32)
    requires
        a <= b,
    ensures
        backoff_secs(a) <= backoff_secs(b) <= 60,
        backoff_secs(a) >= 1,
{
    vstd::arithmetic::power2::lemma_pow2_pos(a as nat);
    if a < b {
        lemma_pow2_strictly_increases(a as nat, b as nat);
    }
}

/// Whether a verdict defers a job by the worker's own backoff, for this reason.
pub open spec fn is_deferral(v: Verdict, attempt: u32, why: Seq<char>) -> bool {
    &&& v matches Verdict::Nack { retry, reason }
    &&& retry matches RetryDirective::After(d)
    &&& time::duration_nanos(d) == backoff_secs(attempt) * 1_000_000_000
    &&& reason@ == why
}

/// The verdict on a job without a handler: it is deferred, so that a worker
/// that does have the handler can pick it up.
pub fn unhandled(attempt: u32) -> (v: Verdict)
    ensures
        is_deferral(v, attempt, "no handler registered for job_type"@),
{
    Verdict::Nack {
        retry: RetryDirective::After(nack_backoff(attempt)),
        reason: "no handler registered for job_type".to_owned(),
    }
}

/// Whether a verdict is the one for a job whose handler ended so.
pub open spec fn is_verdict(v: Option<Verdict>, end: HandlerEnd, attempt: u32) -> bool {
    match end {
        HandlerEnd::Returned(Ok(())) => v == Some(Verdict::Ack),
        HandlerEnd::Returned(Err(HandlerError::Retry(r))) => v == Some(
            Verdict::Nack { retry: RetryDirective::Default, reason: r },
        ),
        HandlerEnd::Returned(Err(HandlerError::RetryAfter(r, d))) => v == Some(
            Verdict::Nack { retry: RetryDirective::After(d), reason: r },
        ),
        HandlerEnd::Returned(Err(HandlerError::Permanent(r))) => v == Some(
            Verdict::Nack { retry: RetryDirective::DeadLetter, reason: r },
        ),
        HandlerEnd::Panicked => v matches Some(n) && is_deferral(n, attempt, "handler panicked"@),
        HandlerEnd::Aborted => v is None,
    }
}

/// The verdict on a job whose handler came to its end: an ack for success, a
/// nack as the handler asked for, and a deferral where it panicked. Nothing is
/// said of a job whose lease was lost.
pub fn settle(end: HandlerEnd, attempt: u32) -> (v: Option<Verdict>)
    ensures
        is_verdict(v, end, attempt),
{
    match end {
        HandlerEnd::Returned(Ok(())) => Some(Verdict::Ack),
        HandlerEnd::Returned(Err(e)) => {
            let (retry, reason) = match e {
                HandlerError::Retry(r) => (RetryDirective::Default, r),
                HandlerError::RetryAfter(r, d) => (RetryDirective::After(d), r),
                HandlerError::Permanent(r) => (RetryDirective::DeadLetter, r),
            };
            Some(Verdict::Nack { retry, reason })
        },
        HandlerEnd::Panicked => Some(
            Verdict::Nack {
                retry: RetryDirective::After(nack_backoff(attempt)),
                reason: "handler panicked".to_owned(),
            },
        ),
        HandlerEnd::Aborted => None,
    }
}

/// A job is acked exactly when its handler succeeded, and sent straight to the
/// dead-letter queue exactly when its handler asked for that.
pub proof fn only_success_acks(v: Option<Verdict>, end: HandlerEnd, attempt: u32)
    requires
        is_verdict(v, end, attempt),
    ensures
        (v matches Some(Verdict::Ack)) <==> (end matches HandlerEnd::Returned(Ok(_))),
        (v matches Some(Verdict::Nack { retry: RetryDirective::DeadLetter, .. })) <==> (
        end matches HandlerEnd::Returned(Err(HandlerError::Permanent(_)))),
        v is None <==> end is Aborted,
{
}

/// The label under which a nack is counted.
pub fn nack_outcome(dead_lettered: bool) -> (s: &'static str)
    ensures
        s@ == if dead_lettered {
            "dead_letter"@
        } else {
            "retry"@
        },
{
    if dead_lettered {
        "dead_letter"
    } else {
        "retry"
    }
}

/// The label under which a completed reserve is counted.
pub fn reserve_outcome(empty: bool) -> (s: &'static str)
    ensures
        s@ == if empty {
            "empty"@
        } else {
            "some"@
        },
{
    if empty {
        "empty"
    } else {
        "some"
    }
}

} // verus!
