//! What becomes of a job whose handler came to its end, or that has none.
use std::time::Duration;
use vstd::prelude::*;

use crate::client::calls::nack_request;
use crate::client::RetryDirective;
use crate::job::JobCtx;
use crate::pb;
use crate::pb::nack_retry::Strategy;
use crate::time;
use crate::worker::{
    nack_backoff, nack_outcome, reserve_outcome, settle, unhandled, HandlerEnd, HandlerError,
    Verdict,
};

verus! {

/// The worker's own backoff is one second before the first attempt, and doubles
/// with each one until it reaches a minute.
pub proof fn the_backoff_doubles_up_to_a_minute(
    attempt: u32,
    d: Duration,
    next: Duration,
    first: Duration,
)
    requires
        attempt < u32::MAX,
        call_ensures(nack_backoff, (0u32,), first),
        call_ensures(nack_backoff, (attempt,), d),
        call_ensures(nack_backoff, ((attempt + 1) as u32,), next),
    ensures
        time::duration_nanos(first) == 1_000_000_000,
        2 * time::duration_nanos(d) <= 60_000_000_000 ==> time::duration_nanos(next) == 2
            * time::duration_nanos(d),
        2 * time::duration_nanos(d) > 60_000_000_000 ==> time::duration_nanos(next)
            == 60_000_000_000,
{
    vstd::arithmetic::power2::lemma_pow2_unfold((attempt + 1) as nat);
    vstd::arithmetic::power2::lemma2_to64();
}

/// A job without a handler and a job whose handler panicked are both deferred by
/// the worker's own backoff: never acked, nor sent to the dead-letter queue.
pub proof fn what_cannot_be_processed_is_deferred(
    attempt: u32,
    d: Duration,
    v: Verdict,
    p: Option<Verdict>,
)
    requires
        call_ensures(nack_backoff, (attempt,), d),
        call_ensures(unhandled, (attempt,), v),
        call_ensures(settle, (HandlerEnd::Panicked, attempt), p),
    ensures
        v matches Verdict::Nack { retry: RetryDirective::After(a), reason } && time::duration_nanos(
            a,
        ) == time::duration_nanos(d) && reason@ == "no handler registered for job_type"@,
        p matches Some(Verdict::Nack { retry: RetryDirective::After(a), reason })
            && time::duration_nanos(a) == time::duration_nanos(d) && reason@ == "handler panicked"@,
{
}

/// A handler that succeeded has its job acked, and no other; one that failed has
/// it nacked as it asked, for the reason that it gave. Nothing is said of a job
/// whose lease was lost.
pub proof fn a_job_is_settled_as_its_handler_asked(
    end: HandlerEnd,
    attempt: u32,
    v: Option<Verdict>,
)
    requires
        call_ensures(settle, (end, attempt), v),
    ensures
        (v matches Some(Verdict::Ack)) <==> (end matches HandlerEnd::Returned(Ok(_))),
        v is None <==> end is Aborted,
        end matches HandlerEnd::Returned(Err(HandlerError::Retry(why))) ==> (v matches Some(
            Verdict::Nack { retry: RetryDirective::Default, reason },
        ) && reason@ == why@),
        end matches HandlerEnd::Returned(Err(HandlerError::RetryAfter(why, d))) ==> (v matches Some(
            Verdict::Nack { retry: RetryDirective::After(a), reason },
        ) && a == d && reason@ == why@),
        end matches HandlerEnd::Returned(Err(HandlerError::Permanent(why))) ==> (v matches Some(
            Verdict::Nack { retry: RetryDirective::DeadLetter, reason },
        ) && reason@ == why@),
{
}

/// A delay that a handler asks for reaches the server as it was asked for, with
/// the handler's reason.
pub proof fn a_handlers_delay_reaches_the_server(
    reason: &str,
    delay: Duration,
    e: HandlerError,
    attempt: u32,
    v: Option<Verdict>,
    ctx: JobCtx,
    why: &str,
    r: pb::NackRequest,
)
    requires
        call_ensures(HandlerError::retry_after, (reason, delay), e),
        call_ensures(settle, (HandlerEnd::Returned(Err(e)), attempt), v),
        v matches Some(Verdict::Nack { retry, reason: given }) && why@ == given@ && call_ensures(
            nack_request,
            (&ctx, retry, why),
            r,
        ),
        time::duration_nanos(delay) < 0x8000_0000_0000_0000 * 1_000_000_000,
    ensures
        r.retry matches Some(n) && (n.strategy matches Some(Strategy::Delay(p)) && p.seconds
            * 1_000_000_000 + p.nanos == time::duration_nanos(delay)),
        r.reason matches Some(text) && text@ == reason@,
{
}

/// A handler that asks for a retry gets the queue's own policy, and one that
/// fails for good sends its job to the dead-letter queue, with its reason.
pub proof fn a_handlers_verdict_reaches_the_server(
    reason: &str,
    again: HandlerError,
    never: HandlerError,
    attempt: u32,
    v: Option<Verdict>,
    w: Option<Verdict>,
)
    requires
        call_ensures(HandlerError::retry, (reason,), again),
        call_ensures(HandlerError::permanent, (reason,), never),
        call_ensures(settle, (HandlerEnd::Returned(Err(again)), attempt), v),
        call_ensures(settle, (HandlerEnd::Returned(Err(never)), attempt), w),
    ensures
        v matches Some(Verdict::Nack { retry: RetryDirective::Default, reason: why }) && why@
            == reason@,
        w matches Some(Verdict::Nack { retry: RetryDirective::DeadLetter, reason: why }) && why@
            == reason@,
{
}

/// The labels of the counters tell their two cases apart.
pub proof fn outcomes_are_told_apart(flag: bool, nacked: &'static str, polled: &'static str)
    requires
        call_ensures(nack_outcome, (flag,), nacked),
        call_ensures(reserve_outcome, (flag,), polled),
    ensures
        nacked@ == "dead_letter"@ <==> flag,
        nacked@ == "retry"@ <==> !flag,
        polled@ == "empty"@ <==> flag,
        polled@ == "some"@ <==> !flag,
{
    reveal_strlit("dead_letter");
    reveal_strlit("retry");
    reveal_strlit("empty");
    reveal_strlit("some");
    assert("dead_letter"@.len() != "retry"@.len());
    assert("empty"@.len() != "some"@.len());
}

} // verus!
