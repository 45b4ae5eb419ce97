//! Enqueuing: what is sent for a job, and what is made of the answer.
use std::time::SystemTime;
use vstd::prelude::*;

use crate::client::calls::{
    self, atomic_results, batch_request, batch_results, inject_trace_context, single_result,
};
use crate::client::{ClientError, EnqueueError};
use crate::pb;
use crate::pb::enqueue_atomic_response;
use crate::pb::job_rejection::Reason;
use crate::pb::job_result;
use crate::pb::primitive_value::Value;
use crate::primitive::{self, Payload, Primitive, Priority, PriorityOutOfRange};
use crate::request::{
    self, AtomicEnqueueError, EnqueueAck, EnqueueRequest, EnqueueRequestBuilderError,
    EnqueueRequestView, JobRejection, JobValidationError,
};
use crate::string_map::StringMap;
use crate::time;
use crate::trace::TraceContext;

verus! {

/// A scheduled time survives the wire: the milliseconds that are sent are those
/// of the time that was asked for, none is sent for a time before the epoch, and
/// reading them back gives that time, to the millisecond.
pub proof fn a_scheduled_time_survives_the_wire(t: SystemTime, u: SystemTime)
    requires
        0 <= time::system_time_nanos(t) < 0x8000_0000_0000_0000 * 1_000_000,
    ensures
        request::schedule_millis(Some(t)) matches Some(ms) && ms * 1_000_000
            <= time::system_time_nanos(t) < (ms + 1) * 1_000_000,
        time::is_time_of(request::schedule_millis(Some(t))->0, Some(u)) ==> time::system_time_nanos(u)
            <= time::system_time_nanos(t) < time::system_time_nanos(u) + 1_000_000,
{
}

/// A time beyond what the wire can carry is sent modulo `2^64`.
pub proof fn a_distant_time_is_sent_modulo(t: SystemTime)
    requires
        time::system_time_nanos(t) >= 0,
    ensures
        request::schedule_millis(Some(t)) matches Some(ms) && (time::system_time_nanos(t)
            / 1_000_000 - ms) % 0x1_0000_0000_0000_0000 == 0,
{
}

/// Times before the epoch and jobs without a time are not scheduled.
pub proof fn only_times_after_the_epoch_are_scheduled(t: SystemTime)
    ensures
        time::system_time_nanos(t) < 0 ==> request::schedule_millis(Some(t)) is None,
        time::system_time_nanos(t) >= 0 ==> request::schedule_millis(Some(t)) is Some,
        request::schedule_millis(None) is None,
{
}

/// Whether a value on the wire is a custom value.
pub open spec fn carries(v: pb::PrimitiveValue, p: Primitive) -> bool {
    match p {
        Primitive::String(s) => v.value matches Some(Value::StringValue(t)) && t@ == s@,
        Primitive::Int(i) => v.value == Some(Value::IntValue(i)),
        Primitive::Double(d) => v.value matches Some(Value::DoubleValue(e)) && e.bits == d.bits,
        Primitive::Bool(b) => v.value == Some(Value::BoolValue(b)),
    }
}

/// A custom value is sent as it is, and read as it was sent.
pub proof fn a_custom_value_is_sent_as_it_is(
    p: Primitive,
    v: pb::PrimitiveValue,
    w: pb::PrimitiveValue,
    r: Option<Primitive>,
)
    requires
        call_ensures(<pb::PrimitiveValue as From<Primitive>>::from, (p,), v),
        call_ensures(primitive::primitive_from_pb, (w,), r),
    ensures
        carries(v, p),
        r is Some <==> w.value is Some,
        r matches Some(q) ==> carries(w, q),
{
}

/// A plain value becomes the custom value of its kind.
pub proof fn a_plain_value_becomes_a_custom_value(
    s: &str,
    owned: String,
    i: i64,
    n: i32,
    d: crate::double::Double,
    b: bool,
    ps: Primitive,
    po: Primitive,
    pi: Primitive,
    pn: Primitive,
    pd: Primitive,
    pb: Primitive,
)
    requires
        call_ensures(<Primitive as From<&str>>::from, (s,), ps),
        call_ensures(<Primitive as From<String>>::from, (owned,), po),
        call_ensures(<Primitive as From<i64>>::from, (i,), pi),
        call_ensures(<Primitive as From<i32>>::from, (n,), pn),
        call_ensures(<Primitive as From<crate::double::Double>>::from, (d,), pd),
        call_ensures(<Primitive as From<bool>>::from, (b,), pb),
    ensures
        ps matches Primitive::String(t) && t@ == s@,
        po matches Primitive::String(t) && t@ == owned@,
        pi matches Primitive::Int(x) && x == i,
        pn matches Primitive::Int(x) && x == n,
        pd matches Primitive::Double(x) && x.bits == d.bits,
        pb matches Primitive::Bool(x) && x == b,
{
}

/// A payload is sent and read byte for byte, with its encoding.
pub proof fn a_payload_is_sent_byte_for_byte(
    data: Vec<u8>,
    encoding: &str,
    p: Payload,
    w: pb::Payload,
    x: pb::Payload,
    q: Payload,
)
    requires
        call_ensures(Payload::new, (data, encoding), p),
        call_ensures(<pb::Payload as From<Payload>>::from, (p,), w),
        call_ensures(<Payload as From<pb::Payload>>::from, (x,), q),
    ensures
        w.data@ == data@,
        w.encoding@ == encoding@,
        q.data@ == x.data@,
        q.encoding@ == x.encoding@,
{
}

/// A number makes a priority exactly where it is at most nine, and is its value.
pub proof fn a_priority_has_its_number(
    n: u8,
    r: Result<Priority, PriorityOutOfRange>,
    t: Result<Priority, PriorityOutOfRange>,
    p: Priority,
    v: u8,
)
    requires
        call_ensures(Priority::new, (n,), r),
        call_ensures(<Priority as TryFrom<u8>>::try_from, (n,), t),
        call_ensures(Priority::get, (&p,), v),
    ensures
        r is Ok <==> n <= 9,
        r == t,
        r matches Ok(q) && q == p ==> v == n,
        v == p@,
        r matches Err(e) ==> e.0 == n,
        v <= 9,
        Priority::MIN@ == 0,
        Priority::MAX@ == 9,
{
}

/// A request on the wire says what was asked for: every field of it, and no
/// other.
pub proof fn a_request_on_the_wire_says_what_was_asked_for(
    v: EnqueueRequestView,
    r: pb::EnqueueRequest,
    key: Seq<char>,
)
    requires
        request::is_enqueue_request(r, v),
    ensures
        r.queue@ == v.queue,
        r.job_type@ == v.job_type,
        r.payload is Some <==> v.payload is Some,
        v.payload matches Some(p) ==> r.payload->0.data@ == p.data@ && r.payload->0.encoding@
            == p.encoding@,
        r.idempotency_key is Some <==> v.idempotency_key is Some,
        v.idempotency_key matches Some(k) ==> r.idempotency_key->0@ == k,
        r.priority is Some <==> v.priority is Some,
        v.priority matches Some(p) ==> r.priority->0 == p@,
        r.max_attempts == v.max_attempts,
        r.custom@.contains_key(key) <==> v.custom.contains_key(key),
        v.custom.contains_key(key) ==> carries(r.custom@[key], v.custom[key]),
        r.trace_context is Some <==> v.trace_context is Some,
        v.trace_context matches Some(tc) ==> r.trace_context->0.traceparent@ == tc.traceparent,
        v.trace_context matches Some(tc) ==> (r.trace_context->0.tracestate is Some
            <==> tc.tracestate is Some),
        v.trace_context matches Some(tc) ==> (tc.tracestate matches Some(ts)
            ==> r.trace_context->0.tracestate->0@ == ts),
        v.scheduled_at is None ==> r.scheduled_at is None,
        v.scheduled_at matches Some(t) ==> (r.scheduled_at is Some <==> time::system_time_nanos(
            t,
        ) >= 0),
        v.scheduled_at matches Some(t) ==> 0 <= time::system_time_nanos(t)
            < 0x8000_0000_0000_0000 * 1_000_000 ==> r.scheduled_at->0 * 1_000_000
            <= time::system_time_nanos(t) < (r.scheduled_at->0 + 1) * 1_000_000,
{
}

/// A job is sent as it was asked for: every field of it, and no other.
pub proof fn a_job_is_sent_as_it_was_asked_for(
    req: EnqueueRequest,
    r: pb::EnqueueRequest,
    key: Seq<char>,
)
    requires
        call_ensures(<pb::EnqueueRequest as From<EnqueueRequest>>::from, (req,), r),
    ensures
        r.queue@ == req@.queue,
        r.job_type@ == req@.job_type,
        r.payload is Some <==> req@.payload is Some,
        req@.payload matches Some(p) ==> r.payload->0.data@ == p.data@ && r.payload->0.encoding@
            == p.encoding@,
        r.idempotency_key is Some <==> req@.idempotency_key is Some,
        req@.idempotency_key matches Some(k) ==> r.idempotency_key->0@ == k,
        r.priority is Some <==> req@.priority is Some,
        req@.priority matches Some(p) ==> r.priority->0 == p@,
        r.max_attempts == req@.max_attempts,
        r.custom@.contains_key(key) <==> req@.custom.contains_key(key),
        req@.custom.contains_key(key) ==> carries(r.custom@[key], req@.custom[key]),
        r.trace_context is Some <==> req@.trace_context is Some,
        req@.trace_context matches Some(tc) ==> r.trace_context->0.traceparent@ == tc.traceparent,
        req@.trace_context matches Some(tc) ==> (r.trace_context->0.tracestate is Some
            <==> tc.tracestate is Some),
        req@.trace_context matches Some(tc) ==> (tc.tracestate matches Some(ts)
            ==> r.trace_context->0.tracestate->0@ == ts),
        req@.scheduled_at is None ==> r.scheduled_at is None,
        req@.scheduled_at matches Some(t) ==> (r.scheduled_at is Some <==> time::system_time_nanos(
            t,
        ) >= 0),
        req@.scheduled_at matches Some(t) ==> 0 <= time::system_time_nanos(t)
            < 0x8000_0000_0000_0000 * 1_000_000 ==> r.scheduled_at->0 * 1_000_000
            <= time::system_time_nanos(t) < (r.scheduled_at->0 + 1) * 1_000_000,
{
    a_request_on_the_wire_says_what_was_asked_for(req@, r, key);
}

/// A request names a queue and a job type, which must not be empty, and asks for
/// nothing else at first.
pub proof fn a_request_names_a_queue_and_a_job_type(
    queue: &str,
    job_type: &str,
    r: Result<EnqueueRequest, EnqueueRequestBuilderError>,
)
    requires
        call_ensures(EnqueueRequest::new, (queue, job_type), r),
    ensures
        r is Ok <==> queue@.len() > 0 && job_type@.len() > 0,
        r matches Err(e) ==> (e is EmptyQueue <==> queue@.len() == 0),
        r matches Err(e) ==> (e is EmptyJobType <==> queue@.len() > 0),
        r matches Ok(q) ==> q@.queue == queue@ && q@.job_type == job_type@,
        r matches Ok(q) ==> q@.payload is None && q@.idempotency_key is None && q@.priority is None
            && q@.max_attempts is None && q@.trace_context is None && q@.scheduled_at is None,
        r matches Ok(q) ==> q@.custom == Map::<Seq<char>, Primitive>::empty(),
{
}

/// Whether two requests agree but for the custom map.
pub open spec fn agree_but_for_custom(a: EnqueueRequest, b: EnqueueRequest) -> bool {
    &&& a@.queue == b@.queue
    &&& a@.job_type == b@.job_type
    &&& a@.payload == b@.payload
    &&& a@.idempotency_key == b@.idempotency_key
    &&& a@.priority == b@.priority
    &&& a@.max_attempts == b@.max_attempts
    &&& a@.trace_context == b@.trace_context
    &&& a@.scheduled_at == b@.scheduled_at
}

/// Each setting of a request is the one that was last given, and leaves the
/// others alone.
pub proof fn a_request_is_what_was_asked_for(
    q: EnqueueRequest,
    payload: Payload,
    key: &str,
    priority: Priority,
    attempts: u32,
    tc: TraceContext,
    at: SystemTime,
    p: EnqueueRequest,
    k: EnqueueRequest,
    r: EnqueueRequest,
    m: EnqueueRequest,
    t: EnqueueRequest,
    s: EnqueueRequest,
)
    requires
        call_ensures(EnqueueRequest::with_payload, (q, payload), p),
        call_ensures(EnqueueRequest::with_idempotency_key, (q, key), k),
        call_ensures(EnqueueRequest::with_priority, (q, priority), r),
        call_ensures(EnqueueRequest::with_max_attempts, (q, attempts), m),
        call_ensures(EnqueueRequest::with_trace_context, (q, tc), t),
        call_ensures(EnqueueRequest::with_scheduled_at, (q, at), s),
    ensures
        p@.payload == Some(payload),
        p@ == (request::EnqueueRequestView { payload: p@.payload, ..q@ }),
        k@.idempotency_key == Some(key@),
        k@ == (request::EnqueueRequestView { idempotency_key: k@.idempotency_key, ..q@ }),
        r@.priority == Some(priority),
        r@ == (request::EnqueueRequestView { priority: r@.priority, ..q@ }),
        m@.max_attempts == Some(attempts),
        m@ == (request::EnqueueRequestView { max_attempts: m@.max_attempts, ..q@ }),
        t@.trace_context == Some(tc@),
        t@ == (request::EnqueueRequestView { trace_context: t@.trace_context, ..q@ }),
        s@.scheduled_at == Some(at),
        s@ == (request::EnqueueRequestView { scheduled_at: s@.scheduled_at, ..q@ }),
{
}

/// A custom entry is put under its key in place of any other, and leaves the
/// other entries alone; a custom map takes the place of all of them.
pub proof fn a_custom_entry_is_put_under_its_key(
    q: EnqueueRequest,
    key: &str,
    value: Primitive,
    other: Seq<char>,
    e: EnqueueRequest,
    custom: StringMap<Primitive>,
    m: EnqueueRequest,
)
    requires
        call_ensures(EnqueueRequest::with_custom_entry, (q, key, value), e),
        call_ensures(EnqueueRequest::with_custom, (q, custom), m),
    ensures
        e@.custom.contains_key(key@) && e@.custom[key@] == value,
        other != key@ ==> (e@.custom.contains_key(other) <==> q@.custom.contains_key(other)),
        other != key@ && q@.custom.contains_key(other) ==> e@.custom[other] == q@.custom[other],
        m@.custom == custom@,
        agree_but_for_custom(e, q),
        agree_but_for_custom(m, q),
{
}

/// A batch holds a request for each job, in order, and is refused exactly where
/// there is none.
pub proof fn a_batch_holds_every_job(
    jobs: Vec<EnqueueRequest>,
    r: Result<pb::EnqueueBatchRequest, ClientError>,
    i: int,
)
    requires
        call_ensures(batch_request, (jobs,), r),
    ensures
        r is Ok <==> jobs@.len() > 0,
        r matches Err(e) ==> e is EmptyBatch,
        r matches Ok(b) ==> b.jobs@.len() == jobs@.len(),
        r matches Ok(b) ==> 0 <= i < jobs@.len() ==> b.jobs@[i].queue@ == jobs@[i]@.queue
            && b.jobs@[i].job_type@ == jobs@[i]@.job_type,
        r matches Ok(b) ==> 0 <= i < jobs@.len() ==> request::is_enqueue_request(
            b.jobs@[i],
            jobs@[i]@,
        ),
{
}

/// A job without a trace context gets the given one, whatever else it holds, and
/// a job with one keeps it. Nothing else of it changes.
pub proof fn a_trace_context_is_attached_where_there_is_none(
    job: pb::EnqueueRequest,
    tc: Option<pb::TraceContext>,
)
    ensures
        job.trace_context is None ==> calls::traced(job, tc).trace_context == tc,
        job.trace_context is Some ==> calls::traced(job, tc).trace_context == job.trace_context,
        calls::traced(job, tc).queue == job.queue,
        calls::traced(job, tc).job_type == job.job_type,
        calls::traced(job, tc).payload == job.payload,
        calls::traced(job, tc).idempotency_key == job.idempotency_key,
        calls::traced(job, tc).priority == job.priority,
        calls::traced(job, tc).max_attempts == job.max_attempts,
        calls::traced(job, tc).custom == job.custom,
        calls::traced(job, tc).scheduled_at == job.scheduled_at,
{
}

/// The same of every job of a batch, in place.
pub proof fn a_batch_is_traced_job_by_job(
    batch: pb::EnqueueBatchRequest,
    tc: Option<pb::TraceContext>,
    r: pb::EnqueueBatchRequest,
    i: int,
)
    requires
        call_ensures(inject_trace_context, (batch, &tc), r),
        0 <= i < batch.jobs@.len(),
    ensures
        r.jobs@.len() == batch.jobs@.len(),
        batch.jobs@[i].trace_context is None ==> r.jobs@[i].trace_context == tc,
        batch.jobs@[i].trace_context is Some ==> r.jobs@[i].trace_context
            == batch.jobs@[i].trace_context,
        r.jobs@[i].queue == batch.jobs@[i].queue,
        r.jobs@[i].job_type == batch.jobs@[i].job_type,
        r.jobs@[i].payload == batch.jobs@[i].payload,
        r.jobs@[i].idempotency_key == batch.jobs@[i].idempotency_key,
        r.jobs@[i].priority == batch.jobs@[i].priority,
        r.jobs@[i].max_attempts == batch.jobs@[i].max_attempts,
        r.jobs@[i].custom == batch.jobs@[i].custom,
        r.jobs@[i].scheduled_at == batch.jobs@[i].scheduled_at,
{
}

/// A confirmation hands on the id that the server gave, and whether the job was
/// there already.
pub proof fn a_confirmation_hands_on_the_id(r: pb::EnqueueResponse, a: EnqueueAck)
    requires
        call_ensures(<EnqueueAck as From<pb::EnqueueResponse>>::from, (r,), a),
    ensures
        a.job_id@ == r.job_id@,
        a.deduplicated == r.deduplicated,
{
}

/// Whether a rejection tells the reason that the server gave, with its numbers.
pub open spec fn tells(j: JobRejection, reason: Option<Reason>) -> bool {
    match j {
        JobRejection::UnknownQueue { queue } => reason matches Some(Reason::UnknownQueue(x))
            && x.queue == queue,
        JobRejection::PayloadTooLarge { limit, actual } => reason matches Some(
            Reason::PayloadTooLarge(x),
        ) && x.limit == limit && x.actual == actual,
        JobRejection::EncodingNotAllowed { encoding, allowed } => reason matches Some(
            Reason::EncodingNotAllowed(x),
        ) && x.encoding == encoding && x.allowed == allowed,
        JobRejection::JobTypeNotAllowed { job_type, allowed } => reason matches Some(
            Reason::JobTypeNotAllowed(x),
        ) && x.job_type == job_type && x.allowed == allowed,
        JobRejection::CustomEntriesTooMany { limit, actual } => reason matches Some(
            Reason::CustomEntriesTooMany(x),
        ) && x.limit == limit && x.actual == actual,
        JobRejection::CustomMapTooLarge { limit, actual } => reason matches Some(
            Reason::CustomMapTooLarge(x),
        ) && x.limit == limit && x.actual == actual,
        JobRejection::CustomKeyTooLong { key, limit, actual } => reason matches Some(
            Reason::CustomKeyTooLong(x),
        ) && x.key == key && x.limit == limit && x.actual == actual,
        JobRejection::QueueNameTooLong { limit, actual } => reason matches Some(
            Reason::QueueNameTooLong(x),
        ) && x.limit == limit && x.actual == actual,
        JobRejection::JobTypeNameTooLong { limit, actual } => reason matches Some(
            Reason::JobTypeNameTooLong(x),
        ) && x.limit == limit && x.actual == actual,
        JobRejection::IdempotencyKeyTooLong { limit, actual } => reason matches Some(
            Reason::IdempotencyKeyTooLong(x),
        ) && x.limit == limit && x.actual == actual,
        JobRejection::ScheduledTooFar { horizon_ms, actual_ms } => reason matches Some(
            Reason::ScheduledTooFar(x),
        ) && x.horizon_ms == horizon_ms && x.actual_ms == actual_ms,
        JobRejection::InvalidRequest { message } => reason matches Some(Reason::InvalidRequest(x))
            && x.message == message,
        JobRejection::Unknown => reason is None,
    }
}

/// A rejection tells the reason that the server gave, with its numbers, and so
/// does each one of an atomic batch, for the job at its place.
pub proof fn a_rejection_tells_the_reason(
    w: pb::JobRejection,
    j: JobRejection,
    e: pb::JobValidationError,
    v: JobValidationError,
)
    requires
        call_ensures(<JobRejection as From<pb::JobRejection>>::from, (w,), j),
        call_ensures(<JobValidationError as From<pb::JobValidationError>>::from, (e,), v),
    ensures
        tells(j, w.reason),
        v.index == e.index,
        e.rejection matches Some(x) ==> tells(v.rejection, x.reason),
        e.rejection is None ==> v.rejection is Unknown,
{
}

/// A batch comes to one verdict for each job, in order: a confirmation where the
/// server accepted the job, and else the reason why not. It fails as a whole
/// exactly where a verdict is missing or there are more or fewer than jobs.
pub proof fn a_batch_comes_to_a_verdict_for_each_job(
    sent: usize,
    response: pb::EnqueueBatchResponse,
    r: Result<Vec<Result<EnqueueAck, JobRejection>>, ClientError>,
    i: int,
)
    requires
        call_ensures(batch_results, (sent, response), r),
    ensures
        r is Ok <==> response.results@.len() == sent && (forall|k: int|
            0 <= k < sent ==> (#[trigger] response.results@[k]).outcome is Some),
        r matches Ok(v) ==> v@.len() == sent,
        r matches Ok(v) ==> 0 <= i < sent ==> match response.results@[i].outcome {
            Some(job_result::Outcome::Success(s)) => v@[i] matches Ok(a) && a.job_id@ == s.job_id@
                && a.deduplicated == s.deduplicated,
            Some(job_result::Outcome::Rejection(w)) => v@[i] matches Err(j) && tells(j, w.reason),
            None => false,
        },
        r matches Err(e) ==> (e is BatchResultCountMismatch <==> response.results@.len() != sent),
        r matches Err(e) ==> (e is MalformedResponse <==> response.results@.len() == sent),
        r matches Err(ClientError::BatchResultCountMismatch { expected, got }) ==> expected == sent
            && got == response.results@.len(),
        r matches Err(ClientError::MalformedResponse(m)) ==> m@ == "missing outcome in job result"@,
{
    if r is Ok {
        let v = r->Ok_0;
        assert(0 <= i < sent ==> calls::verdict_from_wire(response.results@[i]) == Some(v@[i]));
    }
}

/// A single job comes to the verdict on it.
pub proof fn a_single_job_comes_to_its_verdict(
    results: Result<Vec<Result<EnqueueAck, JobRejection>>, ClientError>,
    r: Result<EnqueueAck, EnqueueError>,
)
    requires
        call_ensures(single_result, (results,), r),
    ensures
        results matches Ok(v) ==> v@.len() > 0 ==> (v@[0] matches Ok(a) ==> r == Ok::<
            EnqueueAck,
            EnqueueError,
        >(a)),
        results matches Ok(v) ==> v@.len() > 0 ==> (v@[0] matches Err(j) ==> r == Err::<
            EnqueueAck,
            EnqueueError,
        >(EnqueueError::Rejected(j))),
        results matches Ok(v) ==> v@.len() == 0 ==> (r matches Err(
            EnqueueError::Client(ClientError::MalformedResponse(m)),
        ) && m@ == "empty results for single-job batch"@),
        results matches Err(e) ==> r == Err::<EnqueueAck, EnqueueError>(EnqueueError::Client(e)),
{
}

/// An atomic batch is all or nothing: it comes to a confirmation for each job,
/// in order, or to the failures that the server found, in order, each for the
/// job at its place. It fails as a whole where the server says neither, or
/// confirms more or fewer jobs than were sent.
pub proof fn an_atomic_batch_is_all_or_nothing(
    sent: usize,
    response: pb::EnqueueAtomicResponse,
    r: Result<Vec<EnqueueAck>, AtomicEnqueueError>,
    i: int,
)
    requires
        call_ensures(atomic_results, (sent, response), r),
    ensures
        r is Ok <==> (response.outcome matches Some(enqueue_atomic_response::Outcome::Success(s))
            && s.responses@.len() == sent),
        (r matches Err(AtomicEnqueueError::Validation(_))) <==> (response.outcome matches Some(
            enqueue_atomic_response::Outcome::Rejection(_),
        )),
        (r matches Err(AtomicEnqueueError::Client(ClientError::MalformedResponse(_))))
            <==> response.outcome is None,
        r matches Err(AtomicEnqueueError::Client(ClientError::MalformedResponse(m))) ==> m@
            == "missing outcome in EnqueueAtomicResponse"@,
        response.outcome matches Some(enqueue_atomic_response::Outcome::Success(s)) ==> (r matches Ok(
            v,
        ) ==> v@.len() == sent && (0 <= i < sent ==> v@[i].job_id@ == s.responses@[i].job_id@
            && v@[i].deduplicated == s.responses@[i].deduplicated)),
        response.outcome matches Some(enqueue_atomic_response::Outcome::Rejection(x)) ==> (
        r matches Err(AtomicEnqueueError::Validation(v)) ==> v@.len() == x.errors@.len() && (0 <= i
            < v@.len() ==> v@[i].index == x.errors@[i].index && (x.errors@[i].rejection matches Some(
            w,
        ) ==> tells(v@[i].rejection, w.reason)) && (x.errors@[i].rejection is None
            ==> v@[i].rejection is Unknown))),
        r matches Err(
            AtomicEnqueueError::Client(ClientError::BatchResultCountMismatch { expected, got }),
        ) ==> expected == sent && (response.outcome matches Some(
            enqueue_atomic_response::Outcome::Success(s),
        ) && got == s.responses@.len()),
{
    if let Some(enqueue_atomic_response::Outcome::Success(s)) = response.outcome {
        assert(s.responses.len() == s.responses@.len());
    }
}

} // verus!
