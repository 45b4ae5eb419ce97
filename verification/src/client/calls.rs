//! What each call sends, and what is made of its answer.
use std::time::{Duration, SystemTime};
use vstd::prelude::*;

use crate::client::{ClientError, EnqueueError, LeaseError};
use crate::job::{self, job_from_pb, Job, JobConversionError, JobCtx};
use crate::pb;
use crate::pb::enqueue_atomic_response;
use crate::pb::job_result;
use crate::pb::nack_retry::Strategy;
use crate::request::{
    self, AtomicEnqueueError, EnqueueAck, EnqueueRequest, JobRejection, JobValidationError,
};
use crate::reserve::ReserveOptions;
use crate::server_info::{self, ServerInfo};
use crate::text::{self, clone_text, own_text};
use crate::time::{
    self, duration_from_nanos, duration_to_proto, timestamp_to_system_time,
};

verus! {

/// How long a reserve call may outlast its wait timeout, in nanoseconds.
pub const RESERVE_DEADLINE_SLACK_NANOS: u128 = 10_000_000_000;

/// How the server should handle a nacked job's next delivery.
///
/// This is *job-level* retry (the handler failed), distinct from the
/// connection-level [`RetryPolicy`](crate::client::RetryPolicy) (the call
/// failed).
#[derive(Debug)]
pub enum RetryDirective {
    /// Apply the queue's configured retry policy (backoff, max attempts).
    Default,
    /// Retry, but not before the given delay has elapsed.
    After(Duration),
    /// Do not retry; send the job straight to the dead-letter queue.
    DeadLetter,
}

impl Clone for RetryDirective {
    fn clone(&self) -> (r: Self)
        ensures
            r == *self,
    {
        match self {
            RetryDirective::Default => RetryDirective::Default,
            RetryDirective::After(d) => RetryDirective::After(*d),
            RetryDirective::DeadLetter => RetryDirective::DeadLetter,
        }
    }
}

/// The batch that enqueues the given jobs. A batch of no jobs is an error.
pub fn batch_request(jobs: Vec<EnqueueRequest>) -> (r: Result<pb::EnqueueBatchRequest, ClientError>)
    ensures
        match r {
            Ok(batch) => {
                &&& jobs@.len() > 0
                &&& batch.jobs@.len() == jobs@.len()
                &&& forall|i: int|
                    0 <= i < jobs@.len() ==> request::is_enqueue_request(
                        #[trigger] batch.jobs@[i],
                        jobs@[i]@,
                    ) && batch.jobs@[i].queue@.len() > 0 && batch.jobs@[i].job_type@.len() > 0
            },
            Err(e) => jobs@.len() == 0 && e is EmptyBatch,
        },
{
    if jobs.is_empty() {
        return Err(ClientError::EmptyBatch);
    }
    let ghost all = jobs@;
    let mut wire: Vec<pb::EnqueueRequest> = Vec::new();
    for job in it: jobs
        invariant
            it.seq() == all,
            wire@.len() == it.index(),
            forall|i: int|
                0 <= i < wire@.len() ==> request::is_enqueue_request(
                    #[trigger] wire@[i],
                    all[i]@,
                ) && wire@[i].queue@.len() > 0 && wire@[i].job_type@.len() > 0,
    {
        wire.push(pb::EnqueueRequest::from(job));
    }
    Ok(pb::EnqueueBatchRequest { jobs: wire })
}

/// A job with a trace context attached, unless it carries one already.
pub open spec fn traced(
    job: pb::EnqueueRequest,
    tc: Option<pb::TraceContext>,
) -> pb::EnqueueRequest {
    pb::EnqueueRequest {
        trace_context: match job.trace_context {
            Some(own) => Some(own),
            None => tc,
        },
        ..job
    }
}

/// A trace context that a job carries already is never replaced, attaching one
/// twice is attaching it once, and nothing else of a job changes.
pub proof fn own_trace_wins(
    job: pb::EnqueueRequest,
    tc: Option<pb::TraceContext>,
    other: Option<pb::TraceContext>,
)
    ensures
        job.trace_context is Some ==> traced(job, tc) == job,
        tc is Some ==> traced(traced(job, tc), other) == traced(job, tc),
        traced(job, None) == job,
        traced(job, tc) == (pb::EnqueueRequest {
            trace_context: traced(job, tc).trace_context,
            ..job
        }),
{
}

/// Attaches a trace context to every job of a batch that carries none.
pub fn inject_trace_context(
    batch: pb::EnqueueBatchRequest,
    tc: &Option<pb::TraceContext>,
) -> (r: pb::EnqueueBatchRequest)
    ensures
        r.jobs@ == batch.jobs@.map_values(|job: pb::EnqueueRequest| traced(job, *tc)),
{
    let ghost all = batch.jobs@;
    let ghost f = |job: pb::EnqueueRequest| traced(job, *tc);
    let mut jobs: Vec<pb::EnqueueRequest> = Vec::new();
    for job in it: batch.jobs
        invariant
            it.seq() == all,
            jobs@.len() == it.index(),
            f == (|job: pb::EnqueueRequest| traced(job, *tc)),
            forall|i: int| 0 <= i < jobs@.len() ==> #[trigger] jobs@[i] == traced(all[i], *tc),
    {
        let trace_context = match job.trace_context {
            Some(own) => Some(own),
            None => match tc {
                Some(tc) => Some(
                    pb::TraceContext {
                        traceparent: tc.traceparent.clone(),
                        tracestate: clone_text(&tc.tracestate),
                    },
                ),
                None => None,
            },
        };
        jobs.push(
            pb::EnqueueRequest {
                queue: job.queue,
                job_type: job.job_type,
                payload: job.payload,
                idempotency_key: job.idempotency_key,
                priority: job.priority,
                max_attempts: job.max_attempts,
                custom: job.custom,
                trace_context,
                scheduled_at: job.scheduled_at,
            },
        );
    }
    assert(jobs@ =~= all.map_values(f));
    pb::EnqueueBatchRequest { jobs }
}

/// The verdict on one job of a batch, where the wire carries one.
pub open spec fn verdict_from_wire(r: pb::JobResult) -> Option<Result<EnqueueAck, JobRejection>> {
    match r.outcome {
        Some(job_result::Outcome::Success(s)) => Some(Ok(request::ack_from_wire(s))),
        Some(job_result::Outcome::Rejection(j)) => Some(Err(request::rejection_from_wire(j))),
        None => None,
    }
}

/// Whether every job of a batch has a verdict.
pub open spec fn all_judged(results: Seq<pb::JobResult>) -> bool {
    forall|i: int| 0 <= i < results.len() ==> (#[trigger] results[i]).outcome is Some
}

/// What a batch of `sent` jobs came to: one verdict for each job, in the same
/// order.
///
/// A different number of results than jobs, and a result without a verdict,
/// fail the whole call.
pub fn batch_results(sent: usize, response: pb::EnqueueBatchResponse) -> (r: Result<
    Vec<Result<EnqueueAck, JobRejection>>,
    ClientError,
>)
    ensures
        match r {
            Ok(v) => {
                &&& response.results@.len() == sent
                &&& all_judged(response.results@)
                &&& v@.len() == sent
                &&& forall|i: int|
                    0 <= i < sent ==> verdict_from_wire(response.results@[i]) == Some(
                        #[trigger] v@[i],
                    )
            },
            Err(ClientError::BatchResultCountMismatch { expected, got }) => {
                &&& response.results@.len() != sent
                &&& expected == sent
                &&& got == response.results@.len()
            },
            Err(ClientError::MalformedResponse(m)) => {
                &&& response.results@.len() == sent
                &&& !all_judged(response.results@)
                &&& m@ == "missing outcome in job result"@
            },
            Err(_) => false,
        },
{
    if response.results.len() != sent {
        return Err(
            ClientError::BatchResultCountMismatch { expected: sent, got: response.results.len() },
        );
    }
    let ghost all = response.results@;
    let mut results: Vec<Result<EnqueueAck, JobRejection>> = Vec::new();
    for result in it: response.results
        invariant
            it.seq() == all,
            all == response.results@,
            all.len() == sent,
            results@.len() == it.index(),
            forall|i: int| 0 <= i < it.index() ==> (#[trigger] all[i]).outcome is Some,
            forall|i: int|
                0 <= i < it.index() ==> verdict_from_wire(all[i]) == Some(#[trigger] results@[i]),
    {
        match result.outcome {
            Some(job_result::Outcome::Success(s)) => {
                results.push(Ok(EnqueueAck::from(s)));
            },
            Some(job_result::Outcome::Rejection(j)) => {
                results.push(Err(JobRejection::from(j)));
            },
            None => {
                assert(all[it.index() as int].outcome is None);
                return Err(ClientError::MalformedResponse("missing outcome in job result"));
            },
        }
    }
    Ok(results)
}

/// The verdict on the only job of a batch: a rejection becomes
/// [`EnqueueError::Rejected`].
pub fn single_result(results: Result<Vec<Result<EnqueueAck, JobRejection>>, ClientError>) -> (r:
    Result<EnqueueAck, EnqueueError>)
    ensures
        match results {
            Ok(v) => if v@.len() == 0 {
                r matches Err(EnqueueError::Client(ClientError::MalformedResponse(m))) && m@
                    == "empty results for single-job batch"@
            } else {
                match v@[0] {
                    Ok(ack) => r == Ok::<EnqueueAck, EnqueueError>(ack),
                    Err(rejection) => r == Err::<EnqueueAck, EnqueueError>(
                        EnqueueError::Rejected(rejection),
                    ),
                }
            },
            Err(e) => r == Err::<EnqueueAck, EnqueueError>(EnqueueError::Client(e)),
        },
{
    match results {
        Ok(v) => {
            let mut v = v;
            if v.is_empty() {
                return Err(
                    EnqueueError::Client(
                        ClientError::MalformedResponse("empty results for single-job batch"),
                    ),
                );
            }
            match v.swap_remove(0) {
                Ok(ack) => Ok(ack),
                Err(rejection) => Err(EnqueueError::Rejected(rejection)),
            }
        },
        Err(e) => Err(EnqueueError::Client(e)),
    }
}

/// What an atomic batch of `sent` jobs came to: one confirmation for each job,
/// in the same order, or the failures of all jobs that were refused.
///
/// An answer that is neither, and a different number of confirmations than
/// jobs, fail the whole call.
pub fn atomic_results(sent: usize, response: pb::EnqueueAtomicResponse) -> (r: Result<
    Vec<EnqueueAck>,
    AtomicEnqueueError,
>)
    ensures
        match response.outcome {
            Some(enqueue_atomic_response::Outcome::Success(s)) => if s.responses@.len() == sent {
                r matches Ok(v) && v@ == s.responses@.map_values(
                    |a: pb::EnqueueResponse| request::ack_from_wire(a),
                )
            } else {
                r == Err::<Vec<EnqueueAck>, AtomicEnqueueError>(
                    AtomicEnqueueError::Client(
                        ClientError::BatchResultCountMismatch {
                            expected: sent,
                            got: s.responses@.len() as usize,
                        },
                    ),
                )
            },
            Some(enqueue_atomic_response::Outcome::Rejection(x)) => r matches Err(
                AtomicEnqueueError::Validation(errors),
            ) && errors@ == x.errors@.map_values(
                |e: pb::JobValidationError| request::validation_from_wire(e),
            ),
            None => r matches Err(
                AtomicEnqueueError::Client(ClientError::MalformedResponse(m)),
            ) && m@ == "missing outcome in EnqueueAtomicResponse"@,
        },
{
    match response.outcome {
        Some(enqueue_atomic_response::Outcome::Success(s)) => {
            if s.responses.len() != sent {
                return Err(
                    AtomicEnqueueError::Client(
                        ClientError::BatchResultCountMismatch {
                            expected: sent,
                            got: s.responses.len(),
                        },
                    ),
                );
            }
            Ok(read_acks(s.responses))
        },
        Some(enqueue_atomic_response::Outcome::Rejection(x)) => {
            Err(AtomicEnqueueError::Validation(read_validation_errors(x.errors)))
        },
        None => Err(
            AtomicEnqueueError::Client(
                ClientError::MalformedResponse("missing outcome in EnqueueAtomicResponse"),
            ),
        ),
    }
}

/// Reads confirmations from the wire.
fn read_acks(responses: Vec<pb::EnqueueResponse>) -> (r: Vec<EnqueueAck>)
    ensures
        r@ == responses@.map_values(|a: pb::EnqueueResponse| request::ack_from_wire(a)),
{
    let ghost all = responses@;
    let mut acks: Vec<EnqueueAck> = Vec::new();
    for response in it: responses
        invariant
            it.seq() == all,
            acks@.len() == it.index(),
            forall|i: int|
                0 <= i < acks@.len() ==> #[trigger] acks@[i] == request::ack_from_wire(all[i]),
    {
        acks.push(EnqueueAck::from(response));
    }
    assert(acks@ =~= all.map_values(|a: pb::EnqueueResponse| request::ack_from_wire(a)));
    acks
}

/// Reads the failures of an atomic batch from the wire.
fn read_validation_errors(errors: Vec<pb::JobValidationError>) -> (r: Vec<JobValidationError>)
    ensures
        r@ == errors@.map_values(|e: pb::JobValidationError| request::validation_from_wire(e)),
{
    let ghost all = errors@;
    let mut read: Vec<JobValidationError> = Vec::new();
    for error in it: errors
        invariant
            it.seq() == all,
            read@.len() == it.index(),
            forall|i: int|
                0 <= i < read@.len() ==> #[trigger] read@[i] == request::validation_from_wire(
                    all[i],
                ),
    {
        read.push(JobValidationError::from(error));
    }
    assert(read@ =~= all.map_values(|e: pb::JobValidationError| request::validation_from_wire(e)));
    read
}

/// The deadline of a reserve call: its wait timeout and some slack.
pub fn reserve_deadline(opts: &ReserveOptions) -> (d: Duration)
    requires
        time::duration_nanos(opts@.wait_timeout) + RESERVE_DEADLINE_SLACK_NANOS
            < 18_446_744_073_709_551_616 * 1_000_000_000,
    ensures
        time::duration_nanos(d) == time::duration_nanos(opts@.wait_timeout) + 10_000_000_000,
{
    duration_from_nanos(opts.wait_timeout().as_nanos() + RESERVE_DEADLINE_SLACK_NANOS)
}

/// The values that were read, in order.
pub open spec fn oks<T, E>(read: Seq<Result<T, E>>) -> Seq<T>
    decreases read.len(),
{
    if read.len() == 0 {
        Seq::empty()
    } else {
        match read.last() {
            Ok(v) => oks(read.drop_last()).push(v),
            Err(_) => oks(read.drop_last()),
        }
    }
}

/// The errors among what was read, in order.
pub open spec fn errs<T, E>(read: Seq<Result<T, E>>) -> Seq<E>
    decreases read.len(),
{
    if read.len() == 0 {
        Seq::empty()
    } else {
        match read.last() {
            Ok(_) => errs(read.drop_last()),
            Err(e) => errs(read.drop_last()).push(e),
        }
    }
}

/// Parts what was read from what was malformed, keeping the order of both.
pub fn skip_malformed<T, E>(read: Vec<Result<T, E>>) -> (r: (Vec<T>, Vec<E>))
    ensures
        r.0@ == oks(read@),
        r.1@ == errs(read@),
{
    let ghost all = read@;
    let mut good: Vec<T> = Vec::new();
    let mut bad: Vec<E> = Vec::new();
    for item in it: read
        invariant
            it.seq() == all,
            good@ == oks(all.take(it.index() as int)),
            bad@ == errs(all.take(it.index() as int)),
    {
        proof {
            assert(all.take(it.index() + 1).drop_last() =~= all.take(it.index() as int));
        }
        match item {
            Ok(v) => good.push(v),
            Err(e) => bad.push(e),
        }
    }
    assert(all.take(all.len() as int) =~= all);
    (good, bad)
}

/// Nothing that can be read is lost to something malformed beside it: every
/// item is kept or reported, and each one that can be read is kept.
pub proof fn malformed_spoils_nothing<T, E>(read: Seq<Result<T, E>>)
    ensures
        oks(read).len() + errs(read).len() == read.len(),
        forall|i: int|
            0 <= i < read.len() ==> ((#[trigger] read[i]) matches Ok(v) ==> oks(read).contains(v)),
        forall|i: int|
            0 <= i < read.len() ==> ((#[trigger] read[i]) matches Err(e) ==> errs(read).contains(
                e,
            )),
    decreases read.len(),
{
    if read.len() > 0 {
        let before = read.drop_last();
        malformed_spoils_nothing(before);
        assert forall|i: int| 0 <= i < read.len() implies ((#[trigger] read[i]) matches Ok(v)
            ==> oks(read).contains(v)) by {
            if i < before.len() {
                assert(before[i] == read[i]);
                if read[i] is Ok {
                    let v = read[i]->Ok_0;
                    let j = choose|j: int| 0 <= j < oks(before).len() && oks(before)[j] == v;
                    assert(oks(read)[j] == v);
                }
            } else if read[i] is Ok {
                assert(oks(read)[oks(read).len() - 1] == read[i]->Ok_0);
            }
        }
        assert forall|i: int| 0 <= i < read.len() implies ((#[trigger] read[i]) matches Err(e)
            ==> errs(read).contains(e)) by {
            if i < before.len() {
                assert(before[i] == read[i]);
                if read[i] is Err {
                    let e = read[i]->Err_0;
                    let j = choose|j: int| 0 <= j < errs(before).len() && errs(before)[j] == e;
                    assert(errs(read)[j] == e);
                }
            } else if read[i] is Err {
                assert(errs(read)[errs(read).len() - 1] == read[i]->Err_0);
            }
        }
    }
}

/// The jobs of a reserve call.
pub struct Reserved {
    /// The leased jobs, if there is at least one.
    pub jobs: Option<Vec<Job>>,
    /// What was wrong with the jobs that could not be decoded and were skipped.
    pub skipped: Vec<JobConversionError>,
}

/// Whether reserved jobs are those of a response that were decoded as given.
pub open spec fn is_reserved(
    r: Reserved,
    decoded: Seq<Result<Job, JobConversionError>>,
) -> bool {
    &&& match r.jobs {
        Some(jobs) => jobs@ == oks(decoded) && jobs@.len() > 0,
        None => oks(decoded).len() == 0,
    }
    &&& r.skipped@ == errs(decoded)
}

/// Whether each job of a response was decoded as given.
pub open spec fn all_read(
    decoded: Seq<Result<Job, JobConversionError>>,
    jobs: Seq<pb::Job>,
    worker_id: Option<Seq<char>>,
) -> bool {
    &&& decoded.len() == jobs.len()
    &&& forall|i: int|
        0 <= i < jobs.len() ==> job::job_read(#[trigger] decoded[i], jobs[i], worker_id)
}

/// The jobs of a reserve call that were decoded as given.
pub fn reserved_of(decoded: Vec<Result<Job, JobConversionError>>) -> (r: Reserved)
    ensures
        is_reserved(r, decoded@),
{
    let (jobs, skipped) = skip_malformed(decoded);
    if jobs.is_empty() {
        Reserved { jobs: None, skipped }
    } else {
        Reserved { jobs: Some(jobs), skipped }
    }
}

/// The jobs that a reserve call leased to the given worker. A malformed job is
/// skipped and does not discard the rest of the batch.
pub fn reserved_jobs(response: pb::ReserveResponse, worker_id: Option<&str>) -> (r: Reserved)
    ensures
        exists|decoded: Seq<Result<Job, JobConversionError>>| #[trigger]
            all_read(decoded, response.jobs@, text::opt_str(worker_id)) && is_reserved(r, decoded),
{
    let ghost all = response.jobs@;
    let mut decoded: Vec<Result<Job, JobConversionError>> = Vec::new();
    for j in it: response.jobs
        invariant
            it.seq() == all,
            decoded@.len() == it.index(),
            forall|i: int|
                0 <= i < decoded@.len() ==> job::job_read(
                    #[trigger] decoded@[i],
                    all[i],
                    text::opt_str(worker_id),
                ),
    {
        decoded.push(job_from_pb(j, worker_id));
    }
    let ghost read = decoded@;
    assert(all_read(read, response.jobs@, text::opt_str(worker_id)));
    reserved_of(decoded)
}

/// The request that acknowledges a job.
pub fn ack_request(ctx: &JobCtx) -> (r: pb::AckRequest)
    ensures
        r.job_id@ == ctx.id@,
        r.attempt == ctx.attempt,
        text::opt_text(r.worker_id) == ctx.lease@.worker_id,
{
    pb::AckRequest {
        job_id: ctx.id.clone(),
        attempt: ctx.attempt,
        worker_id: clone_text(ctx.lease.worker_id()),
    }
}

/// The wire form of a retry directive.
pub open spec fn strategy_of(retry: RetryDirective) -> Strategy {
    match retry {
        RetryDirective::Default => Strategy::Default,
        RetryDirective::After(d) => Strategy::Delay(
            time::proto_duration_of(time::duration_nanos(d)),
        ),
        RetryDirective::DeadLetter => Strategy::DeadLetter,
    }
}

/// The request that reports a job as failed.
pub fn nack_request(ctx: &JobCtx, retry: RetryDirective, reason: &str) -> (r: pb::NackRequest)
    ensures
        r.job_id@ == ctx.id@,
        r.attempt == ctx.attempt,
        text::opt_text(r.reason) == Some(reason@),
        r.retry matches Some(n) && n.strategy == Some(strategy_of(retry)),
        text::opt_text(r.worker_id) == ctx.lease@.worker_id,
{
    let strategy = match retry {
        RetryDirective::Default => Strategy::Default,
        RetryDirective::After(d) => Strategy::Delay(duration_to_proto(d)),
        RetryDirective::DeadLetter => Strategy::DeadLetter,
    };
    pb::NackRequest {
        job_id: ctx.id.clone(),
        attempt: ctx.attempt,
        reason: Some(reason.to_owned()),
        retry: Some(pb::NackRetry { strategy: Some(strategy) }),
        worker_id: clone_text(ctx.lease.worker_id()),
    }
}

/// Whether a nack moved the job to the dead-letter queue.
pub fn nack_result(response: pb::NackResponse) -> (dead_lettered: bool)
    ensures
        dead_lettered == response.dead_lettered,
{
    response.dead_lettered
}

/// Whether a request extends the lease on this delivery of a job by so much, for
/// this worker.
pub open spec fn is_extend_request(
    r: pb::ExtendRequest,
    job_id: Seq<char>,
    attempt: u32,
    extension: Duration,
    worker_id: Option<Seq<char>>,
) -> bool {
    &&& r.job_id@ == job_id
    &&& r.attempt == attempt
    &&& r.lease_duration == Some(time::proto_duration_of(time::duration_nanos(extension)))
    &&& text::opt_text(r.worker_id) == worker_id
}

/// The request that extends the lease on one delivery of a job.
pub fn extend_request(
    job_id: &str,
    attempt: u32,
    extension: Duration,
    worker_id: Option<&str>,
) -> (r: pb::ExtendRequest)
    ensures
        is_extend_request(r, job_id@, attempt, extension, text::opt_str(worker_id)),
{
    pb::ExtendRequest {
        job_id: job_id.to_owned(),
        attempt,
        lease_duration: Some(duration_to_proto(extension)),
        worker_id: own_text(worker_id),
    }
}

/// The request that extends a job's lease, whoever asks for it: a client that
/// was handed the job, or the job itself. Where the lease is on the delivery
/// that the job is, as it is for every decoded job, it is the request for that
/// lease.
pub fn extend_job_request(ctx: &JobCtx, extension: Duration) -> (r: pb::ExtendRequest)
    ensures
        is_extend_request(r, ctx.id@, ctx.attempt, extension, ctx.lease@.worker_id),
        ctx.lease@.job_id == ctx.id@ && ctx.lease@.attempt == ctx.attempt ==> is_extend_request(
            r,
            ctx.lease@.job_id,
            ctx.lease@.attempt,
            extension,
            ctx.lease@.worker_id,
        ),
{
    let worker_id = match ctx.lease.worker_id() {
        Some(id) => Some(id.as_str()),
        None => None,
    };
    extend_request(ctx.id.as_str(), ctx.attempt, extension, worker_id)
}

/// Extending a decoded job through a client and through its lease is the same:
/// the same is sent, and the answer leaves the one end that the job's holders
/// share at the new time where the lease was extended, and at the time that the
/// server gave with the job where it was not.
pub proof fn extends_are_equivalent(
    job: Job,
    j: pb::Job,
    worker_id: Option<Seq<char>>,
    extension: Duration,
    by_client: pb::ExtendRequest,
    by_lease: pb::ExtendRequest,
    answer: Result<SystemTime, LeaseError>,
)
    requires
        job::job_read(Ok(job), j, worker_id),
        is_extend_request(
            by_client,
            job.ctx.id@,
            job.ctx.attempt,
            extension,
            job.ctx.lease@.worker_id,
        ),
        is_extend_request(
            by_lease,
            job.ctx.lease@.job_id,
            job.ctx.lease@.attempt,
            extension,
            job.ctx.lease@.worker_id,
        ),
    ensures
        by_client.job_id@ == by_lease.job_id@,
        by_client.attempt == by_lease.attempt,
        by_client.lease_duration == by_lease.lease_duration,
        text::opt_text(by_client.worker_id) == text::opt_text(by_lease.worker_id),
        answer matches Ok(t) ==> job::after_answer(job.ctx.first_end() as i64, answer)
            == time::epoch_millis(t),
        answer is Err ==> job::after_answer(job.ctx.first_end() as i64, answer)
            == j.lease_expires_at,
{
    job::decoded_lease(job, j, worker_id);
}

/// The end of an extended lease that was read as given; an error where there is
/// none.
pub fn extended_until(new_expiry: Option<SystemTime>) -> (r: Result<SystemTime, LeaseError>)
    ensures
        match new_expiry {
            Some(t) => r == Ok::<SystemTime, LeaseError>(t),
            None => r matches Err(LeaseError::Client(ClientError::MalformedResponse(m))) && m@
                == "extend returned an invalid lease_expires_at"@,
        },
{
    match new_expiry {
        Some(t) => Ok(t),
        None => Err(
            LeaseError::Client(
                ClientError::MalformedResponse("extend returned an invalid lease_expires_at"),
            ),
        ),
    }
}

/// The new end of a lease that was extended.
///
/// A missing or malformed time is an error, and so is one that the operating
/// system cannot represent.
pub fn extend_result(response: pb::ExtendResponse) -> (r: Result<SystemTime, LeaseError>)
    ensures
        response.lease_expires_at is None ==> r is Err,
        response.lease_expires_at matches Some(ts) ==> !time::is_normal_timestamp(ts) ==> r is Err,
        response.lease_expires_at matches Some(ts) ==> time::is_normal_timestamp(ts)
            && time::can_hold(time::timestamp_nanos(ts)) ==> r is Ok,
        response.lease_expires_at matches Some(ts) ==> ts.nanos % 1_000_000 == 0 ==> (r is Ok
            <==> time::is_normal_timestamp(ts) && time::can_hold(time::timestamp_nanos(ts))),
        response.lease_expires_at matches Some(ts) ==> ts.seconds == 0 && ts.nanos == 0 ==> r is Ok,
        r matches Ok(t) ==> time::epoch_nanos_to_millis(time::system_time_nanos(t))
            == time::epoch_nanos_to_millis(time::timestamp_nanos(response.lease_expires_at->0)),
        r matches Ok(t) ==> response.lease_expires_at->0.nanos % 1_000_000 == 0
            ==> time::system_time_nanos(t) == time::timestamp_nanos(response.lease_expires_at->0),
        r matches Err(e) ==> (e matches LeaseError::Client(ClientError::MalformedResponse(m)) && m@
            == "extend returned an invalid lease_expires_at"@),
{
    extended_until(timestamp_to_system_time(response.lease_expires_at))
}

/// What a server says of itself.
pub fn server_info_result(response: pb::GetServerInfoResponse) -> (r: Result<
    ServerInfo,
    ClientError,
>)
    ensures
        match r {
            Ok(info) => server_info::server_info_read(Ok(info), response),
            Err(ClientError::MalformedServerInfo(e)) => server_info::server_info_read(
                Err(e),
                response,
            ),
            Err(_) => false,
        },
{
    match ServerInfo::try_from(response) {
        Ok(info) => Ok(info),
        Err(e) => Err(ClientError::from(e)),
    }
}

/// The request that drains up to `max` dead-lettered jobs, of one queue or of
/// all.
///
/// Draining removes jobs from the server, so there is no request for none of
/// them.
pub fn drain_request(queue: Option<&str>, max: u32) -> (r: Option<pb::DrainDeadLettersRequest>)
    ensures
        r is None <==> max == 0,
        r matches Some(q) ==> q.max == Some(max) && text::opt_text(q.queue) == text::opt_str(queue),
{
    if max == 0 {
        return None;
    }
    Some(pb::DrainDeadLettersRequest { queue: own_text(queue), max: Some(max) })
}

/// A drain hands out no more jobs than were asked for, and none where none were
/// asked for: where the server sends no more records than a request asks for,
/// no more than that are read.
pub proof fn drain_is_bounded<T, E>(
    max: u32,
    request: Option<pb::DrainDeadLettersRequest>,
    records: Seq<Result<T, E>>,
)
    requires
        request is None <==> max == 0,
        request matches Some(q) ==> q.max == Some(max),
        request matches Some(q) ==> records.len() <= q.max->0,
        request is None ==> records.len() == 0,
    ensures
        oks(records).len() <= max,
{
    malformed_spoils_nothing(records);
}

} // verus!
