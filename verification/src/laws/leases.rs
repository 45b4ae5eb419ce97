//! Leases: keeping them alive, and naming them in calls.
use std::time::{Duration, SystemTime};
use vstd::prelude::*;

use crate::client::calls::{
    ack_request, extend_job_request, extend_request, extend_result, nack_request, nack_result,
};
use crate::client::{ClientError, LeaseError, RetryDirective};
use crate::job::{self, JobCtx, LeaseEnd};
use crate::pb;
use crate::pb::nack_retry::Strategy;
use crate::status::Code;
use crate::time;
use crate::worker::heartbeat::{self, after_extend, heartbeat_interval, next_heartbeat};
use crate::worker::{AutoExtend, HeartbeatStep, Worker};

verus! {

/// An extension that failed at the transport or protocol level aborts the
/// handler exactly where the lease is known to have ended.
pub proof fn a_passing_failure_aborts_nothing(
    c: ClientError,
    known_expiry_ms: i64,
    now_ms: i64,
    step: HeartbeatStep,
)
    requires
        call_ensures(
            after_extend,
            (&Err::<SystemTime, LeaseError>(LeaseError::Client(c)), known_expiry_ms, now_ms),
            step,
        ),
    ensures
        now_ms < known_expiry_ms ==> step is Continue,
        now_ms >= known_expiry_ms ==> step is Abort,
{
}

/// A lease that the server gave to another, or does not know any more, aborts
/// the handler at any time; one that was extended never does.
pub proof fn a_reassigned_lease_aborts(
    extended: Result<SystemTime, LeaseError>,
    known_expiry_ms: i64,
    now_ms: i64,
    step: HeartbeatStep,
)
    requires
        call_ensures(after_extend, (&extended, known_expiry_ms, now_ms), step),
    ensures
        extended is Ok ==> step is Continue,
        extended matches Err(LeaseError::AttemptMismatch) ==> step is Abort,
        extended matches Err(LeaseError::JobNotFound) ==> step is Abort,
{
}

/// Only the two errors that say so tell of a lease that belongs to another.
pub proof fn no_client_error_is_a_reassignment(e: LeaseError)
    ensures
        heartbeat::is_reassigned(e) <==> !(e is Client),
{
}

/// While a lease holds, an extension that the server answered with an error
/// aborts the handler exactly where the answer was that there is no such job,
/// or that the attempt does not match.
pub proof fn the_answer_of_the_server_decides(
    code: Code,
    text: &str,
    e: LeaseError,
    known_expiry_ms: i64,
    now_ms: i64,
    step: HeartbeatStep,
)
    requires
        call_ensures(LeaseError::of_status, (code, text), e),
        call_ensures(
            after_extend,
            (&Err::<SystemTime, LeaseError>(e), known_expiry_ms, now_ms),
            step,
        ),
        now_ms < known_expiry_ms,
    ensures
        step is Abort <==> code is NotFound || code is FailedPrecondition,
{
}

/// The interval between two extensions is a third of the time that the lease
/// has left, to the nanosecond below, and never less than a millisecond.
pub proof fn the_interval_is_a_third(lease: Duration, d: Duration)
    requires
        call_ensures(heartbeat_interval, (lease,), d),
    ensures
        time::duration_nanos(lease) >= 3_000_000 ==> 3 * time::duration_nanos(d)
            <= time::duration_nanos(lease) < 3 * time::duration_nanos(d) + 3,
        time::duration_nanos(lease) < 3_000_000 ==> time::duration_nanos(d) == 1_000_000,
{
}

/// The next extension comes after the explicit interval, and else after a third
/// of the time until the known end of the lease; at once, but for a
/// millisecond, where that has come.
pub proof fn the_next_extension_comes_in_time(
    cfg: AutoExtend,
    known_expiry_ms: i64,
    now_ms: i64,
    d: Duration,
)
    requires
        call_ensures(next_heartbeat, (&cfg, known_expiry_ms, now_ms), d),
    ensures
        cfg.explicit_interval matches Some(i) ==> d == i,
        ({
            let left = (known_expiry_ms - now_ms) * 1_000_000;
            let wait = time::duration_nanos(d);
            cfg.explicit_interval is None && known_expiry_ms - now_ms <= i64::MAX ==> {
                &&& left >= 3_000_000 ==> 3 * wait <= left < 3 * wait + 3
                &&& left < 3_000_000 ==> wait == 1_000_000
            }
        }),
        cfg.explicit_interval is None && known_expiry_ms - now_ms > i64::MAX ==> 3
            * time::duration_nanos(d) <= 0x7fff_ffff_ffff_ffff * 1_000_000 < 3
            * time::duration_nanos(d) + 3,
{
}

/// A worker that keeps leases alive extends each by the lease duration that it
/// asks for, at an interval that follows the lease, or at the given one, which
/// counts as no less than a millisecond.
pub proof fn auto_extend_renews_the_lease<H>(
    w: Worker<H>,
    interval: Duration,
    plain: Worker<H>,
    timed: Worker<H>,
)
    requires
        call_ensures(Worker::<H>::with_auto_extend, (w,), plain),
        call_ensures(Worker::<H>::with_auto_extend_interval, (w, interval), timed),
    ensures
        plain@.auto_extend matches Some(cfg) && cfg.extend_by == w@.opts.lease_duration
            && cfg.explicit_interval is None,
        timed@.auto_extend matches Some(cfg) && cfg.extend_by == w@.opts.lease_duration
            && cfg.explicit_interval is Some,
        time::duration_nanos(interval) >= 1_000_000 ==> time::duration_nanos(
            timed@.auto_extend->0.explicit_interval->0,
        ) == time::duration_nanos(interval),
        time::duration_nanos(interval) < 1_000_000 ==> time::duration_nanos(
            timed@.auto_extend->0.explicit_interval->0,
        ) == 1_000_000,
        plain@.opts == w@.opts,
        timed@.opts == w@.opts,
        plain@.handlers == w@.handlers,
        timed@.handlers == w@.handlers,
        plain@.catch_all_handler == w@.catch_all_handler,
        timed@.catch_all_handler == w@.catch_all_handler,
        plain@.max_in_flight == w@.max_in_flight,
        timed@.max_in_flight == w@.max_in_flight,
        plain@.reserve_error_backoff == w@.reserve_error_backoff,
        timed@.reserve_error_backoff == w@.reserve_error_backoff,
{
}

/// A duration on the wire is the duration that was meant, to the nanosecond,
/// wherever its whole seconds fit; a longer one is cut to the longest seconds.
pub proof fn a_duration_is_sent_whole(d: Duration, p: pb::ProtoDuration)
    requires
        call_ensures(time::duration_to_proto, (d,), p),
    ensures
        0 <= p.nanos < 1_000_000_000,
        p.seconds >= 0,
        time::duration_nanos(d) < 0x8000_0000_0000_0000 * 1_000_000_000 ==> p.seconds
            * 1_000_000_000 + p.nanos == time::duration_nanos(d),
        time::duration_nanos(d) >= 0x8000_0000_0000_0000 * 1_000_000_000 ==> p.seconds == i64::MAX,
        (time::duration_nanos(d) - p.nanos) % 1_000_000_000 == 0,
{
}

/// A nack carries the delay that was asked for, no shorter and no longer, and no
/// delay where none was: the queue's own policy applies, or the job goes to the
/// dead-letter queue.
pub proof fn a_nack_asks_for_the_delay_that_was_meant(
    ctx: JobCtx,
    retry: RetryDirective,
    reason: &str,
    r: pb::NackRequest,
)
    requires
        call_ensures(nack_request, (&ctx, retry, reason), r),
    ensures
        r.retry matches Some(n) && n.strategy is Some,
        ({
            let strategy = r.retry->0.strategy->0;
            &&& retry is Default <==> strategy is Default
            &&& retry is DeadLetter <==> strategy is DeadLetter
            &&& retry is After <==> strategy is Delay
        }),
        retry matches RetryDirective::After(d) ==> (r.retry->0.strategy->0 matches Strategy::Delay(
            p,
        ) && 0 <= p.nanos < 1_000_000_000 && p.seconds >= 0 && (time::duration_nanos(d)
            < 0x8000_0000_0000_0000 * 1_000_000_000 ==> p.seconds * 1_000_000_000 + p.nanos
            == time::duration_nanos(d)) && (time::duration_nanos(d) >= 0x8000_0000_0000_0000
            * 1_000_000_000 ==> p.seconds == i64::MAX) && (time::duration_nanos(d) - p.nanos)
            % 1_000_000_000 == 0),
        r.reason matches Some(why) && why@ == reason@,
{
}

/// Acking, nacking and extending a job all speak of the same delivery: the job,
/// the attempt and the worker that the lease is on.
pub proof fn calls_speak_of_the_delivery(
    ctx: JobCtx,
    retry: RetryDirective,
    reason: &str,
    extension: Duration,
    ack: pb::AckRequest,
    nack: pb::NackRequest,
    extend: pb::ExtendRequest,
)
    requires
        call_ensures(ack_request, (&ctx,), ack),
        call_ensures(nack_request, (&ctx, retry, reason), nack),
        call_ensures(extend_job_request, (&ctx, extension), extend),
    ensures
        ack.job_id@ == ctx.id@,
        nack.job_id@ == ctx.id@,
        extend.job_id@ == ctx.id@,
        ack.attempt == ctx.attempt,
        nack.attempt == ctx.attempt,
        extend.attempt == ctx.attempt,
        ack.worker_id is Some <==> ctx.lease@.worker_id is Some,
        nack.worker_id is Some <==> ctx.lease@.worker_id is Some,
        extend.worker_id is Some <==> ctx.lease@.worker_id is Some,
        ctx.lease@.worker_id matches Some(id) ==> ack.worker_id->0@ == id && nack.worker_id->0@
            == id && extend.worker_id->0@ == id,
{
}

/// An extension asks for the time that was meant, for the delivery that was
/// named.
pub proof fn an_extension_asks_for_the_time_that_was_meant(
    job_id: &str,
    attempt: u32,
    extension: Duration,
    worker_id: Option<&str>,
    r: pb::ExtendRequest,
)
    requires
        call_ensures(extend_request, (job_id, attempt, extension, worker_id), r),
    ensures
        r.job_id@ == job_id@,
        r.attempt == attempt,
        r.worker_id is Some <==> worker_id is Some,
        worker_id matches Some(id) ==> r.worker_id->0@ == id@,
        r.lease_duration matches Some(p) && 0 <= p.nanos < 1_000_000_000 && p.seconds >= 0,
        time::duration_nanos(extension) < 0x8000_0000_0000_0000 * 1_000_000_000
            ==> r.lease_duration->0.seconds * 1_000_000_000 + r.lease_duration->0.nanos
            == time::duration_nanos(extension),
        time::duration_nanos(extension) >= 0x8000_0000_0000_0000 * 1_000_000_000
            ==> r.lease_duration->0.seconds == i64::MAX,
        (time::duration_nanos(extension) - r.lease_duration->0.nanos) % 1_000_000_000 == 0,
{
}

/// An extension through a job asks for the time that was meant.
pub proof fn a_job_is_extended_by_the_time_that_was_meant(
    ctx: JobCtx,
    extension: Duration,
    r: pb::ExtendRequest,
)
    requires
        call_ensures(extend_job_request, (&ctx, extension), r),
    ensures
        r.lease_duration matches Some(p) && 0 <= p.nanos < 1_000_000_000 && p.seconds >= 0,
        time::duration_nanos(extension) < 0x8000_0000_0000_0000 * 1_000_000_000
            ==> r.lease_duration->0.seconds * 1_000_000_000 + r.lease_duration->0.nanos
            == time::duration_nanos(extension),
        time::duration_nanos(extension) >= 0x8000_0000_0000_0000 * 1_000_000_000
            ==> r.lease_duration->0.seconds == i64::MAX,
        (time::duration_nanos(extension) - r.lease_duration->0.nanos) % 1_000_000_000 == 0,
{
}

/// The answer to an extension gives the new end of the lease to the
/// millisecond, and exactly where it is a whole number of them. It is read
/// wherever it lies at or after the epoch, is normal, and can be represented.
pub proof fn the_new_end_is_the_one_that_was_granted(
    response: pb::ExtendResponse,
    r: Result<SystemTime, LeaseError>,
)
    requires
        call_ensures(extend_result, (response,), r),
    ensures
        response.lease_expires_at is None ==> r is Err,
        response.lease_expires_at matches Some(ts) ==> ts.seconds >= 0 && 0 <= ts.nanos
            < 1_000_000_000 && (exists|u: SystemTime| #[trigger]
            time::system_time_nanos(u) == ts.seconds * 1_000_000_000 + ts.nanos) ==> r is Ok,
        response.lease_expires_at matches Some(ts) ==> ts.seconds < 0 || ts.nanos < 0 || ts.nanos
            >= 1_000_000_000 ==> r is Err,
        r matches Ok(t) ==> response.lease_expires_at is Some,
        r matches Ok(t) ==> time::system_time_nanos(t) / 1_000_000 == (
        response.lease_expires_at->0.seconds * 1_000_000_000 + response.lease_expires_at->0.nanos)
            / 1_000_000,
        r matches Ok(t) ==> response.lease_expires_at->0.nanos % 1_000_000 == 0
            ==> time::system_time_nanos(t) == response.lease_expires_at->0.seconds * 1_000_000_000
            + response.lease_expires_at->0.nanos,
        r matches Err(e) ==> (e matches LeaseError::Client(ClientError::MalformedResponse(m)) && m@
            == "extend returned an invalid lease_expires_at"@),
{
}

/// A known end moves to the millisecond of the time that the server granted, and
/// stays where it was when the server granted none.
pub proof fn the_known_end_follows_the_answer(
    end: &mut LeaseEnd,
    answer: Result<SystemTime, LeaseError>,
)
    requires
        call_ensures(LeaseEnd::note_extend, (end, &answer), ()),
    ensures
        answer is Err ==> final(end)@ == old(end)@,
        answer matches Ok(t) ==> 0 <= time::system_time_nanos(t) < 0x8000_0000_0000_0000 * 1_000_000
            ==> final(end)@ * 1_000_000 <= time::system_time_nanos(t) < (final(end)@ + 1)
            * 1_000_000,
        answer matches Ok(t) ==> time::system_time_nanos(t) < 0 ==> final(end)@ == 0,
        answer matches Ok(t) ==> time::system_time_nanos(t) >= 0 ==> (time::system_time_nanos(t)
            / 1_000_000 - final(end)@) % 0x1_0000_0000_0000_0000 == 0,
{
}

/// The end that a job comes with is that of its lease, to the millisecond, and
/// is what is first known.
pub proof fn a_job_comes_with_the_end_of_its_lease(ctx: JobCtx, end: LeaseEnd, ms: i64)
    requires
        call_ensures(JobCtx::lease_end, (&ctx,), end),
        call_ensures(LeaseEnd::known_expiry_ms, (&end,), ms),
        0 <= time::system_time_nanos(ctx.lease_expires_at) < 0x8000_0000_0000_0000 * 1_000_000,
    ensures
        ms * 1_000_000 <= time::system_time_nanos(ctx.lease_expires_at) < (ms + 1) * 1_000_000,
{
}

/// Whether a nacked job was dead-lettered is what the server says.
pub proof fn the_server_says_what_became_of_a_nack(response: pb::NackResponse, r: bool)
    requires
        call_ensures(nack_result, (response,), r),
    ensures
        r <==> response.dead_lettered,
{
}

} // verus!
