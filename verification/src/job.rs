//! Jobs leased from the server.
use std::time::SystemTime;
use vstd::prelude::*;

use crate::client::LeaseError;
use crate::string_map::{self, StringMap};
use crate::pb;
use crate::primitive::{self, primitive_from_pb, Payload, Primitive, Priority};
use crate::request;
use crate::text::{self, clone_text, decimal_string, own_text, signed_decimal_string};
use crate::time::{self, millis_to_system_time, system_time_to_millis};
use crate::trace::{self, TraceContext, TraceContextView};

verus! {

/// What a lease holds.
pub struct LeaseView {
    pub job_id: Seq<char>,
    pub attempt: u32,
    pub worker_id: Option<Seq<char>>,
}

/// The hold of a worker on one delivery of a job. When it is known to end is
/// kept apart, in a [`LeaseEnd`].
#[derive(Debug)]
pub struct Lease {
    job_id: String,
    attempt: u32,
    worker_id: Option<String>,
}

impl View for Lease {
    type V = LeaseView;

    closed spec fn view(&self) -> LeaseView {
        LeaseView {
            job_id: self.job_id@,
            attempt: self.attempt,
            worker_id: text::opt_text(self.worker_id),
        }
    }
}

impl Clone for Lease {
    fn clone(&self) -> (r: Self)
        ensures
            r@ == self@,
    {
        Lease {
            job_id: self.job_id.clone(),
            attempt: self.attempt,
            worker_id: clone_text(&self.worker_id),
        }
    }
}

impl Lease {
    /// A lease on one delivery of a job.
    pub fn new(job_id: String, attempt: u32, worker_id: Option<String>) -> (r: Self)
        ensures
            r@ == (LeaseView { job_id: job_id@, attempt, worker_id: text::opt_text(worker_id) }),
    {
        Lease { job_id, attempt, worker_id }
    }

    /// The id of the leased job.
    pub fn job_id(&self) -> (s: &str)
        ensures
            s@ == self@.job_id,
    {
        self.job_id.as_str()
    }

    /// The delivery attempt that the lease is on.
    pub fn attempt(&self) -> (n: u32)
        ensures
            n == self@.attempt,
    {
        self.attempt
    }

    /// The id of the worker that holds the lease, if it has one.
    pub fn worker_id(&self) -> (r: &Option<String>)
        ensures
            text::opt_text(*r) == self@.worker_id,
    {
        &self.worker_id
    }
}

/// When a lease is known to end after the answer to an extension.
pub open spec fn after_answer(end: i64, answer: Result<SystemTime, LeaseError>) -> i64 {
    match answer {
        Ok(t) => time::epoch_millis(t) as i64,
        Err(_) => end,
    }
}

/// When a lease is known to end after the answers to a sequence of extensions.
pub open spec fn after_answers(end: i64, answers: Seq<Result<SystemTime, LeaseError>>) -> i64
    decreases answers.len(),
{
    if answers.len() == 0 {
        end
    } else {
        after_answer(after_answers(end, answers.drop_last()), answers.last())
    }
}

/// A lease is known to end when the last extension that succeeded said, however
/// many failed after it, and when it first did where none succeeded.
pub proof fn lease_follows_its_extensions(
    end: i64,
    answers: Seq<Result<SystemTime, LeaseError>>,
    last: int,
)
    requires
        -1 <= last < answers.len(),
        last >= 0 ==> answers[last] is Ok,
        forall|i: int| last < i < answers.len() ==> (#[trigger] answers[i]) is Err,
    ensures
        after_answers(end, answers) == if last >= 0 {
            time::epoch_millis(answers[last]->Ok_0)
        } else {
            end as int
        },
    decreases answers.len(),
{
    if answers.len() > 0 {
        let before = answers.drop_last();
        if last < before.len() {
            assert forall|i: int| last < i < before.len() implies (#[trigger] before[i]) is Err by {
                assert(answers[i] is Err);
            }
            assert(answers[answers.len() - 1] is Err);
            lease_follows_its_extensions(end, before, last);
        }
    }
}

/// When a lease is known to end, in milliseconds since the Unix epoch.
///
/// It has no `Clone`: all who hold a job share one value, so that an extension
/// which one of them asked for is known to the others.
#[derive(Debug)]
pub struct LeaseEnd {
    expiry_ms: i64,
}

impl View for LeaseEnd {
    type V = i64;

    closed spec fn view(&self) -> i64 {
        self.expiry_ms
    }
}

impl LeaseEnd {
    /// The end of a lease that expires at the given time.
    pub fn new(lease_expires_at: SystemTime) -> (r: Self)
        ensures
            r@ == time::epoch_millis(lease_expires_at),
    {
        LeaseEnd { expiry_ms: system_time_to_millis(lease_expires_at) }
    }

    /// When the lease is known to end, in milliseconds since the Unix epoch.
    pub fn known_expiry_ms(&self) -> (ms: i64)
        ensures
            ms == self@,
    {
        self.expiry_ms
    }

    /// Takes note of the answer to an extension: the new end of a lease that was
    /// extended. A lease that was not extended keeps its end.
    pub fn note_extend(&mut self, answer: &Result<SystemTime, LeaseError>)
        ensures
            final(self)@ == after_answer(old(self)@, *answer),
    {
        if let Ok(new_expiry) = answer {
            self.expiry_ms = system_time_to_millis(*new_expiry);
        }
    }
}

/// Everything about a reserved job except its payload: identity, delivery
/// metadata, and what is needed to manage its lease.
#[derive(Debug)]
pub struct JobCtx {
    /// Server-assigned job id (a UUID).
    pub id: String,
    /// The job type, used to route to a handler.
    pub job_type: String,
    /// The job's effective priority.
    pub priority: Priority,
    /// Which delivery attempt this is, starting at `1` and incremented on each
    /// redelivery.
    pub attempt: u32,
    /// The maximum attempts before the job is dead-lettered.
    pub max_attempts: u32,
    /// When the producer enqueued the job.
    pub enqueued_at: SystemTime,
    /// Custom metadata the producer attached.
    pub custom: StringMap<Primitive>,
    /// The producer's trace context, if any and if it was well-formed.
    pub trace_context: Option<TraceContext>,
    /// When the lease that the job came with expires. The job must be acked,
    /// nacked, or extended before this, or it will be redelivered.
    pub lease_expires_at: SystemTime,
    /// The lease on the job.
    pub lease: Lease,
}

impl Clone for JobCtx {
    fn clone(&self) -> (r: Self)
        ensures
            r.same_job(*self),
    {
        let custom = self.custom.clone();
        assert(custom@ =~= self.custom@);
        JobCtx {
            id: self.id.clone(),
            job_type: self.job_type.clone(),
            priority: self.priority,
            attempt: self.attempt,
            max_attempts: self.max_attempts,
            enqueued_at: self.enqueued_at,
            custom,
            trace_context: match &self.trace_context {
                Some(tc) => Some(tc.clone()),
                None => None,
            },
            lease_expires_at: self.lease_expires_at,
            lease: self.lease.clone(),
        }
    }
}

impl JobCtx {
    /// Whether two contexts say the same of a job.
    pub open spec fn same_job(self, other: Self) -> bool {
        &&& self.id@ == other.id@
        &&& self.job_type@ == other.job_type@
        &&& self.priority == other.priority
        &&& self.attempt == other.attempt
        &&& self.max_attempts == other.max_attempts
        &&& self.enqueued_at == other.enqueued_at
        &&& self.custom@ == other.custom@
        &&& self.trace_context == other.trace_context
        &&& self.lease_expires_at == other.lease_expires_at
        &&& self.lease@ == other.lease@
    }

    /// When the lease that the job came with ends, in milliseconds since the
    /// Unix epoch.
    pub open spec fn first_end(self) -> int {
        time::epoch_millis(self.lease_expires_at)
    }

    /// The end of the lease that the job came with, for those who will hold the
    /// job to share.
    pub fn lease_end(&self) -> (r: LeaseEnd)
        ensures
            r@ == self.first_end(),
    {
        LeaseEnd::new(self.lease_expires_at)
    }

    /// The one-line form of a job's identity.
    pub open spec fn summary(self) -> Seq<char> {
        "JobCtx { id: "@ + self.id@ + ", job_type: "@ + self.job_type@ + ", attempt: "@
            + text::decimal(self.attempt as nat) + "/"@ + text::decimal(self.max_attempts as nat)
            + ", priority: "@ + text::decimal(self.priority@ as nat) + " }"@
    }

    /// Writes the one-line form of the job's identity.
    pub fn to_string(&self) -> (s: String)
        ensures
            s@ == self.summary(),
    {
        "JobCtx { id: ".to_owned().concat(self.id.as_str()).concat(", job_type: ").concat(
            self.job_type.as_str(),
        ).concat(", attempt: ").concat(decimal_string(self.attempt as u64).as_str()).concat(
            "/",
        ).concat(decimal_string(self.max_attempts as u64).as_str()).concat(", priority: ").concat(
            decimal_string(self.priority.get() as u64).as_str(),
        ).concat(" }")
    }
}

/// A reserved job: its optional [`Payload`] and its [`JobCtx`].
#[derive(Debug)]
pub struct Job {
    /// The job's payload, if it has one.
    pub payload: Option<Payload>,
    /// The job's identity, delivery metadata, and lease.
    pub ctx: JobCtx,
}

impl Clone for Job {
    fn clone(&self) -> (r: Self)
        ensures
            request::same_payload(r.payload, self.payload),
            r.ctx.same_job(self.ctx),
    {
        Job {
            payload: match &self.payload {
                Some(p) => Some(p.clone()),
                None => None,
            },
            ctx: self.ctx.clone(),
        }
    }
}

/// Returned when a job received from the server cannot be decoded into a
/// [`Job`].
///
/// During a reserve call the offending job is skipped rather than failing the
/// whole batch, so you normally only encounter it indirectly.
#[derive(Debug)]
pub enum JobConversionError {
    /// A required field (named in the payload) was absent or empty.
    MissingField(&'static str),
    /// The priority was outside `0..=9`.
    PriorityOutOfRange(u32),
    /// A timestamp field held a value that is not a representable
    /// [`SystemTime`].
    InvalidTimestamp { field: &'static str, value: i64 },
    /// A custom map entry was present but carried no value.
    EmptyCustomValue(String),
}

impl JobConversionError {
    /// The message of this error.
    pub open spec fn message(self) -> Seq<char> {
        match self {
            JobConversionError::MissingField(field) => "job is missing required field `"@ + field@
                + "`"@,
            JobConversionError::PriorityOutOfRange(p) => "job priority "@ + text::decimal(p as nat)
                + " is out of range (expected 0-9)"@,
            JobConversionError::InvalidTimestamp { field, value } => "job timestamp `"@ + field@
                + "` is not a representable time ("@ + text::signed_decimal(value as int) + "ms)"@,
            JobConversionError::EmptyCustomValue(key) => "custom value for key `"@ + key@
                + "` has no value set"@,
        }
    }

    /// Writes the message of this error.
    pub fn to_string(&self) -> (s: String)
        ensures
            s@ == self.message(),
    {
        match self {
            JobConversionError::MissingField(field) => {
                "job is missing required field `".to_owned().concat(field).concat("`")
            },
            JobConversionError::PriorityOutOfRange(p) => "job priority ".to_owned().concat(
                decimal_string(*p as u64).as_str(),
            ).concat(" is out of range (expected 0-9)"),
            JobConversionError::InvalidTimestamp { field, value } => {
                "job timestamp `".to_owned().concat(field).concat(
                    "` is not a representable time (",
                ).concat(signed_decimal_string(*value).as_str()).concat("ms)")
            },
            JobConversionError::EmptyCustomValue(key) => {
                "custom value for key `".to_owned().concat(key.as_str()).concat(
                    "` has no value set",
                )
            },
        }
    }
}

/// Whether every value of a custom map on the wire is set.
pub open spec fn all_set(custom: Map<Seq<char>, pb::PrimitiveValue>) -> bool {
    forall|k: Seq<char>| #[trigger] custom.contains_key(k) ==> custom[k].value is Some
}

/// The custom map that a map on the wire with all values set stands for.
pub open spec fn custom_from_wire(custom: Map<Seq<char>, pb::PrimitiveValue>) -> Map<
    Seq<char>,
    Primitive,
> {
    custom.map_values(|v: pb::PrimitiveValue| primitive::primitive_from_wire(v)->0)
}

/// Reads a custom map from the wire. An unset value is an error, which names a
/// key with such a value.
pub fn custom_from_pb(custom: StringMap<pb::PrimitiveValue>) -> (r: Result<
    StringMap<Primitive>,
    JobConversionError,
>)
    ensures
        match r {
            Ok(m) => all_set(custom@) && m@ == custom_from_wire(custom@),
            Err(e) => e matches JobConversionError::EmptyCustomValue(k) && custom@.contains_key(k@)
                && custom@[k@].value is None,
        },
{
    let entries = custom.into_entries();
    let ghost all = entries@;
    let mut out: StringMap<Primitive> = StringMap::new();
    assert(out@ =~= custom_from_wire(string_map::entries_map(all.take(0))));
    for entry in it: entries
        invariant
            it.seq() == all,
            string_map::distinct_keys(all),
            string_map::entries_map(all) == custom@,
            all_set(string_map::entries_map(all.take(it.index() as int))),
            out@ == custom_from_wire(string_map::entries_map(all.take(it.index() as int))),
    {
        let ghost before = string_map::entries_map(all.take(it.index() as int));
        let ghost k = entry.0@;
        let ghost v = entry.1;
        proof {
            assert(all.take(it.index() + 1).drop_last() =~= all.take(it.index() as int));
            string_map::lemma_entries_value(all, it.index() as int);
        }
        match primitive_from_pb(entry.1) {
            Some(value) => {
                out.insert(entry.0, value);
                proof {
                    assert(custom_from_wire(before.insert(k, v)) =~= custom_from_wire(
                        before,
                    ).insert(k, value));
                }
            },
            None => {
                return Err(JobConversionError::EmptyCustomValue(entry.0));
            },
        }
    }
    assert(all.take(all.len() as int) =~= all);
    Ok(out)
}

/// A custom map survives the wire.
pub proof fn custom_round_trip(custom: Map<Seq<char>, Primitive>)
    ensures
        all_set(request::custom_to_wire(custom)),
        custom_from_wire(request::custom_to_wire(custom)) == custom,
{
    assert(custom_from_wire(request::custom_to_wire(custom)) =~= custom);
}

/// The payload that an optional payload on the wire stands for.
pub open spec fn opt_payload_from_wire(p: Option<pb::Payload>) -> Option<Payload> {
    match p {
        Some(p) => Some(primitive::payload_from_wire(p)),
        None => None,
    }
}

/// The trace context that one on the wire stands for: none where the wire has
/// none or a malformed one.
pub open spec fn opt_trace_from_wire(tc: Option<pb::TraceContext>) -> Option<TraceContextView> {
    match tc {
        Some(tc) => trace::trace_from_wire(tc),
        None => None,
    }
}

/// Whether a job on the wire, whose times were read as given, can be decoded.
pub open spec fn job_decodes(
    j: pb::Job,
    enqueued_at: Option<SystemTime>,
    lease_expires_at: Option<SystemTime>,
) -> bool {
    &&& j.id@.len() > 0
    &&& j.job_type@.len() > 0
    &&& j.priority <= 9
    &&& enqueued_at is Some
    &&& lease_expires_at is Some
    &&& all_set(j.custom@)
}

/// Whether `e` tells what is wrong with a job on the wire whose times were read
/// as given: the first of the checks that it fails.
pub open spec fn is_job_fault(
    e: JobConversionError,
    j: pb::Job,
    enqueued_at: Option<SystemTime>,
    lease_expires_at: Option<SystemTime>,
) -> bool {
    if j.id@.len() == 0 {
        e matches JobConversionError::MissingField(f) && f@ == "id"@
    } else if j.job_type@.len() == 0 {
        e matches JobConversionError::MissingField(f) && f@ == "job_type"@
    } else if j.priority > 9 {
        e == JobConversionError::PriorityOutOfRange(j.priority)
    } else if enqueued_at is None {
        e matches JobConversionError::InvalidTimestamp { field, value } && field@ == "enqueued_at"@
            && value == j.enqueued_at
    } else if lease_expires_at is None {
        e matches JobConversionError::InvalidTimestamp { field, value } && field@
            == "lease_expires_at"@ && value == j.lease_expires_at
    } else {
        e matches JobConversionError::EmptyCustomValue(k) && j.custom@.contains_key(k@)
            && j.custom@[k@].value is None
    }
}

/// Whether `job` is what a job on the wire stands for, with these times and
/// leased to this worker.
pub open spec fn is_job(
    job: Job,
    j: pb::Job,
    enqueued_at: SystemTime,
    lease_expires_at: SystemTime,
    worker_id: Option<Seq<char>>,
) -> bool {
    &&& job.payload == opt_payload_from_wire(j.payload)
    &&& job.ctx.id@ == j.id@
    &&& job.ctx.job_type@ == j.job_type@
    &&& job.ctx.priority@ == j.priority
    &&& job.ctx.attempt == j.attempt
    &&& job.ctx.max_attempts == j.max_attempts
    &&& job.ctx.enqueued_at == enqueued_at
    &&& job.ctx.custom@ == custom_from_wire(j.custom@)
    &&& request::opt_trace(job.ctx.trace_context) == opt_trace_from_wire(j.trace_context)
    &&& job.ctx.lease_expires_at == lease_expires_at
    &&& job.ctx.lease@ == (LeaseView {
        job_id: j.id@,
        attempt: j.attempt,
        worker_id,
    })
}

/// Whether `r` is what decoding a job on the wire gives, where its times are
/// read as given.
pub open spec fn is_decoded(
    r: Result<Job, JobConversionError>,
    j: pb::Job,
    enqueued_at: Option<SystemTime>,
    lease_expires_at: Option<SystemTime>,
    worker_id: Option<Seq<char>>,
) -> bool {
    match r {
        Ok(job) => job_decodes(j, enqueued_at, lease_expires_at) && is_job(
            job,
            j,
            enqueued_at->0,
            lease_expires_at->0,
            worker_id,
        ),
        Err(e) => !job_decodes(j, enqueued_at, lease_expires_at) && is_job_fault(
            e,
            j,
            enqueued_at,
            lease_expires_at,
        ),
    }
}

/// Decodes a job on the wire whose times were read as given.
///
/// A malformed trace context does not block the job: it is dropped.
pub fn job_with_times(
    j: pb::Job,
    enqueued_at: Option<SystemTime>,
    lease_expires_at: Option<SystemTime>,
    worker_id: Option<&str>,
) -> (r: Result<Job, JobConversionError>)
    ensures
        is_decoded(r, j, enqueued_at, lease_expires_at, text::opt_str(worker_id)),
{
    if j.id.as_str().is_empty() {
        return Err(JobConversionError::MissingField("id"));
    }
    if j.job_type.as_str().is_empty() {
        return Err(JobConversionError::MissingField("job_type"));
    }
    if j.priority > 9 {
        return Err(JobConversionError::PriorityOutOfRange(j.priority));
    }
    let priority = match Priority::new(j.priority as u8) {
        Ok(p) => p,
        Err(_) => {
            return Err(JobConversionError::PriorityOutOfRange(j.priority));
        },
    };
    let enqueued = match enqueued_at {
        Some(t) => t,
        None => {
            return Err(
                JobConversionError::InvalidTimestamp {
                    field: "enqueued_at",
                    value: j.enqueued_at,
                },
            );
        },
    };
    let expires = match lease_expires_at {
        Some(t) => t,
        None => {
            return Err(
                JobConversionError::InvalidTimestamp {
                    field: "lease_expires_at",
                    value: j.lease_expires_at,
                },
            );
        },
    };
    let custom = match custom_from_pb(j.custom) {
        Ok(m) => m,
        Err(e) => {
            return Err(e);
        },
    };
    let trace_context = match j.trace_context {
        Some(tc) => match TraceContext::try_from(tc) {
            Ok(t) => Some(t),
            Err(_) => None,
        },
        None => None,
    };
    let lease = Lease::new(j.id.clone(), j.attempt, own_text(worker_id));
    Ok(
        Job {
            payload: match j.payload {
                Some(p) => Some(Payload::from(p)),
                None => None,
            },
            ctx: JobCtx {
                id: j.id,
                job_type: j.job_type,
                priority,
                attempt: j.attempt,
                max_attempts: j.max_attempts,
                enqueued_at: enqueued,
                custom,
                trace_context,
                lease_expires_at: expires,
                lease,
            },
        },
    )
}

/// Whether `r` is what decoding a job on the wire gives. Its times are read
/// exactly where the operating system can represent them.
pub open spec fn job_read(
    r: Result<Job, JobConversionError>,
    j: pb::Job,
    worker_id: Option<Seq<char>>,
) -> bool {
    exists|enqueued_at: Option<SystemTime>, lease_expires_at: Option<SystemTime>|
        (#[trigger] time::is_time_of(j.enqueued_at, enqueued_at)) && (#[trigger] time::is_time_of(
            j.lease_expires_at,
            lease_expires_at,
        )) && is_decoded(r, j, enqueued_at, lease_expires_at, worker_id)
}

/// Decodes a job from the wire, leased to the given worker.
pub fn job_from_pb(j: pb::Job, worker_id: Option<&str>) -> (r: Result<Job, JobConversionError>)
    ensures
        job_read(r, j, text::opt_str(worker_id)),
{
    let enqueued_at = millis_to_system_time(j.enqueued_at);
    let lease_expires_at = millis_to_system_time(j.lease_expires_at);
    assert(time::is_time_of(j.enqueued_at, enqueued_at) && time::is_time_of(
        j.lease_expires_at,
        lease_expires_at,
    ));
    job_with_times(j, enqueued_at, lease_expires_at, worker_id)
}

/// A job is decoded exactly where its fields are set, its priority is in range,
/// its custom values are set, and the operating system can represent its times.
pub proof fn job_read_succeeds(
    r: Result<Job, JobConversionError>,
    j: pb::Job,
    worker_id: Option<Seq<char>>,
)
    requires
        job_read(r, j, worker_id),
    ensures
        r is Ok <==> {
            &&& j.id@.len() > 0
            &&& j.job_type@.len() > 0
            &&& j.priority <= 9
            &&& j.enqueued_at >= 0 && time::can_hold(j.enqueued_at * 1_000_000)
            &&& j.lease_expires_at >= 0 && time::can_hold(j.lease_expires_at * 1_000_000)
            &&& all_set(j.custom@)
        },
{
}

/// The lease of a decoded job is known to end when the server said, and is on
/// the delivery that the job is.
pub proof fn decoded_lease(job: Job, j: pb::Job, worker_id: Option<Seq<char>>)
    requires
        job_read(Ok(job), j, worker_id),
    ensures
        job.ctx.first_end() == j.lease_expires_at,
        job.ctx.lease@.job_id == job.ctx.id@,
        job.ctx.lease@.attempt == job.ctx.attempt,
        job.ctx.lease@.worker_id == worker_id,
{
    time::millis_round_trip(j.lease_expires_at, job.ctx.lease_expires_at);
}

/// A worker gets what the producer enqueued: where the server hands on the
/// payload, the custom map and the trace context of a request as they were
/// sent, the decoded job carries those of the request.
pub proof fn job_carries_what_was_enqueued(
    req: request::EnqueueRequestView,
    sent: pb::EnqueueRequest,
    j: pb::Job,
    job: Job,
    worker_id: Option<Seq<char>>,
)
    requires
        req.trace_context matches Some(tc) ==> trace::valid_traceparent(tc.traceparent),
        request::is_enqueue_request(sent, req),
        j.payload == sent.payload,
        j.custom@ == sent.custom@,
        j.trace_context == sent.trace_context,
        job_read(Ok(job), j, worker_id),
    ensures
        job.payload == req.payload,
        job.ctx.custom@ == req.custom,
        request::opt_trace(job.ctx.trace_context) == req.trace_context,
{
    custom_round_trip(req.custom);
}

/// A malformed trace context never keeps a job from being decoded: what is
/// wrong with a job does not rest on its trace context.
pub proof fn trace_context_never_blocks(
    e: JobConversionError,
    j: pb::Job,
    k: pb::Job,
    worker_id: Option<Seq<char>>,
)
    requires
        job_read(Err(e), j, worker_id),
        k == (pb::Job { trace_context: k.trace_context, ..j }),
    ensures
        job_read(Err(e), k, worker_id),
{
    let (a, b) = choose|a: Option<SystemTime>, b: Option<SystemTime>|
        #![trigger time::is_time_of(j.enqueued_at, a), time::is_time_of(j.lease_expires_at, b)]
        time::is_time_of(j.enqueued_at, a) && time::is_time_of(j.lease_expires_at, b) && is_decoded(
            Err(e),
            j,
            a,
            b,
            worker_id,
        );
    assert(time::is_time_of(k.enqueued_at, a) && time::is_time_of(k.lease_expires_at, b));
    assert(is_decoded(Err(e), k, a, b, worker_id));
}

} // verus!
