//! Jobs to enqueue, and the server's answers to them.
use std::time::SystemTime;
use vstd::prelude::*;

use crate::client::ClientError;
use crate::string_map::{self, StringMap};
use crate::pb;
use crate::pb::job_rejection::Reason;
use crate::primitive::{self, Payload, Primitive, Priority};
use crate::text::{
    self, clone_text, debug_string, debug_strings, decimal_string, signed_decimal_string,
};
use crate::time::{self, system_time_to_epoch_millis};
use crate::trace::{self, TraceContext, TraceContextView};

verus! {

/// What an enqueue request holds.
pub struct EnqueueRequestView {
    pub queue: Seq<char>,
    pub job_type: Seq<char>,
    pub payload: Option<Payload>,
    pub idempotency_key: Option<Seq<char>>,
    pub priority: Option<Priority>,
    pub max_attempts: Option<u32>,
    pub custom: Map<Seq<char>, Primitive>,
    pub trace_context: Option<TraceContextView>,
    pub scheduled_at: Option<SystemTime>,
}

/// A job to enqueue, built fluently.
///
/// Start with [`EnqueueRequest::new`] (which requires a queue and a job type)
/// and layer on the optional fields with the `with_*` methods.
///
/// Fields left unset fall back to the queue's configured defaults on the
/// server. Every value names a queue and a job type.
#[derive(Debug)]
pub struct EnqueueRequest {
    queue: String,
    job_type: String,
    payload: Option<Payload>,
    idempotency_key: Option<String>,
    priority: Option<Priority>,
    max_attempts: Option<u32>,
    custom: StringMap<Primitive>,
    trace_context: Option<TraceContext>,
    scheduled_at: Option<SystemTime>,
}

/// Returned by [`EnqueueRequest::new`] when the queue or job type is empty.
///
/// These are the only two fields validated client-side; all other constraints
/// (size limits, allowed encodings, ...) are enforced by the server and surface
/// as a [`JobRejection`].
#[derive(Debug)]
pub enum EnqueueRequestBuilderError {
    /// The queue name was empty.
    EmptyQueue,
    /// The job type was empty.
    EmptyJobType,
}

impl EnqueueRequestBuilderError {
    /// The message of this error.
    pub open spec fn message(self) -> Seq<char> {
        match self {
            EnqueueRequestBuilderError::EmptyQueue => "queue name must not be empty"@,
            EnqueueRequestBuilderError::EmptyJobType => "job type must not be empty"@,
        }
    }

    /// Writes the message of this error.
    pub fn to_string(&self) -> (s: String)
        ensures
            s@ == self.message(),
    {
        match self {
            EnqueueRequestBuilderError::EmptyQueue => "queue name must not be empty".to_owned(),
            EnqueueRequestBuilderError::EmptyJobType => "job type must not be empty".to_owned(),
        }
    }
}

/// What an optional trace context holds.
pub open spec fn opt_trace(tc: Option<TraceContext>) -> Option<TraceContextView> {
    match tc {
        Some(tc) => Some(tc@),
        None => None,
    }
}

impl View for EnqueueRequest {
    type V = EnqueueRequestView;

    closed spec fn view(&self) -> EnqueueRequestView {
        EnqueueRequestView {
            queue: self.queue@,
            job_type: self.job_type@,
            payload: self.payload,
            idempotency_key: text::opt_text(self.idempotency_key),
            priority: self.priority,
            max_attempts: self.max_attempts,
            custom: self.custom@,
            trace_context: opt_trace(self.trace_context),
            scheduled_at: self.scheduled_at,
        }
    }
}

impl EnqueueRequest {
    #[verifier::type_invariant]
    spec fn inv(self) -> bool {
        self.queue@.len() > 0 && self.job_type@.len() > 0
    }

    /// Begins a request for the given queue and job type.
    ///
    /// Both must be non-empty, or [`EnqueueRequestBuilderError`] is returned.
    pub fn new(queue: &str, job_type: &str) -> (r: Result<Self, EnqueueRequestBuilderError>)
        ensures
            match r {
                Ok(req) => queue@.len() > 0 && job_type@.len() > 0 && req@ == (EnqueueRequestView {
                    queue: queue@,
                    job_type: job_type@,
                    payload: None,
                    idempotency_key: None,
                    priority: None,
                    max_attempts: None,
                    custom: Map::empty(),
                    trace_context: None,
                    scheduled_at: None,
                }),
                Err(EnqueueRequestBuilderError::EmptyQueue) => queue@.len() == 0,
                Err(EnqueueRequestBuilderError::EmptyJobType) => queue@.len() > 0 && job_type@.len()
                    == 0,
            },
    {
        if queue.is_empty() {
            return Err(EnqueueRequestBuilderError::EmptyQueue);
        }
        if job_type.is_empty() {
            return Err(EnqueueRequestBuilderError::EmptyJobType);
        }
        Ok(
            EnqueueRequest {
                queue: queue.to_owned(),
                job_type: job_type.to_owned(),
                payload: None,
                idempotency_key: None,
                priority: None,
                max_attempts: None,
                custom: StringMap::new(),
                trace_context: None,
                scheduled_at: None,
            },
        )
    }

    /// Sets the job's payload.
    pub fn with_payload(self, payload: Payload) -> (r: Self)
        ensures
            r@ == (EnqueueRequestView { payload: Some(payload), ..self@ }),
    {
        proof {
            use_type_invariant(&self);
        }
        EnqueueRequest { payload: Some(payload), ..self }
    }

    /// Sets a deduplication key. The server drops a duplicate enqueue with the
    /// same key within the queue's dedup window, returning the existing job's
    /// id with [`EnqueueAck::deduplicated`] set.
    pub fn with_idempotency_key(self, key: &str) -> (r: Self)
        ensures
            r@ == (EnqueueRequestView { idempotency_key: Some(key@), ..self@ }),
    {
        proof {
            use_type_invariant(&self);
        }
        EnqueueRequest { idempotency_key: Some(key.to_owned()), ..self }
    }

    /// Overrides the queue's default [`Priority`].
    pub fn with_priority(self, priority: Priority) -> (r: Self)
        ensures
            r@ == (EnqueueRequestView { priority: Some(priority), ..self@ }),
    {
        proof {
            use_type_invariant(&self);
        }
        EnqueueRequest { priority: Some(priority), ..self }
    }

    /// Overrides the queue's default maximum delivery attempts before the job
    /// is dead-lettered.
    pub fn with_max_attempts(self, attempts: u32) -> (r: Self)
        ensures
            r@ == (EnqueueRequestView { max_attempts: Some(attempts), ..self@ }),
    {
        proof {
            use_type_invariant(&self);
        }
        EnqueueRequest { max_attempts: Some(attempts), ..self }
    }

    /// Replaces the custom metadata map wholesale. See
    /// [`with_custom_entry`](Self::with_custom_entry) to add one key at a time.
    pub fn with_custom(self, custom: StringMap<Primitive>) -> (r: Self)
        ensures
            r@ == (EnqueueRequestView { custom: custom@, ..self@ }),
    {
        proof {
            use_type_invariant(&self);
        }
        EnqueueRequest { custom, ..self }
    }

    /// Inserts a single custom metadata entry, in place of any with the same
    /// key.
    pub fn with_custom_entry(self, key: &str, value: Primitive) -> (r: Self)
        ensures
            r@ == (EnqueueRequestView { custom: self@.custom.insert(key@, value), ..self@ }),
    {
        proof {
            use_type_invariant(&self);
        }
        let mut custom = self.custom;
        custom.insert(key.to_owned(), value);
        EnqueueRequest {
            queue: self.queue,
            job_type: self.job_type,
            payload: self.payload,
            idempotency_key: self.idempotency_key,
            priority: self.priority,
            max_attempts: self.max_attempts,
            custom,
            trace_context: self.trace_context,
            scheduled_at: self.scheduled_at,
        }
    }

    /// Attaches a [`TraceContext`] to the job.
    ///
    /// The current span's context is attached to a job without one when it is
    /// enqueued, so set this only to override that or to propagate a trace
    /// captured elsewhere.
    pub fn with_trace_context(self, trace_context: TraceContext) -> (r: Self)
        ensures
            r@ == (EnqueueRequestView { trace_context: Some(trace_context@), ..self@ }),
    {
        proof {
            use_type_invariant(&self);
        }
        EnqueueRequest { trace_context: Some(trace_context), ..self }
    }

    /// Delays the job until the given time. The job is not delivered to any
    /// worker before then.
    pub fn with_scheduled_at(self, scheduled_at: SystemTime) -> (r: Self)
        ensures
            r@ == (EnqueueRequestView { scheduled_at: Some(scheduled_at), ..self@ }),
    {
        proof {
            use_type_invariant(&self);
        }
        EnqueueRequest { scheduled_at: Some(scheduled_at), ..self }
    }
}

/// Whether two optional payloads hold the same bytes and the same encoding.
pub open spec fn same_payload(a: Option<Payload>, b: Option<Payload>) -> bool {
    match (a, b) {
        (Some(p), Some(q)) => p.data@ == q.data@ && p.encoding@ == q.encoding@,
        (None, None) => true,
        _ => false,
    }
}

impl Clone for EnqueueRequest {
    fn clone(&self) -> (r: Self)
        ensures
            r@ == (EnqueueRequestView { payload: r@.payload, ..self@ }),
            same_payload(r@.payload, self@.payload),
    {
        proof {
            use_type_invariant(self);
        }
        let custom = self.custom.clone();
        assert(custom@ =~= self.custom@);
        EnqueueRequest {
            queue: self.queue.clone(),
            job_type: self.job_type.clone(),
            payload: match &self.payload {
                Some(p) => Some(p.clone()),
                None => None,
            },
            idempotency_key: clone_text(&self.idempotency_key),
            priority: self.priority,
            max_attempts: self.max_attempts,
            custom,
            trace_context: match &self.trace_context {
                Some(tc) => Some(tc.clone()),
                None => None,
            },
            scheduled_at: self.scheduled_at,
        }
    }
}

/// The wire form of a custom map: the same keys, with the wire form of their
/// values.
pub open spec fn custom_to_wire(custom: Map<Seq<char>, Primitive>) -> Map<
    Seq<char>,
    pb::PrimitiveValue,
> {
    custom.map_values(|p: Primitive| primitive::primitive_to_wire(p))
}

/// Writes a custom map for the wire.
pub fn custom_to_pb(custom: StringMap<Primitive>) -> (r: StringMap<pb::PrimitiveValue>)
    ensures
        r@ == custom_to_wire(custom@),
{
    let entries = custom.into_entries();
    let ghost all = entries@;
    let mut out: StringMap<pb::PrimitiveValue> = StringMap::new();
    assert(out@ =~= custom_to_wire(string_map::entries_map(all.take(0))));
    for entry in it: entries
        invariant
            it.seq() == all,
            out@ == custom_to_wire(string_map::entries_map(all.take(it.index() as int))),
    {
        let ghost before = string_map::entries_map(all.take(it.index() as int));
        let ghost k = entry.0@;
        let ghost p = entry.1;
        out.insert(entry.0, pb::PrimitiveValue::from(entry.1));
        proof {
            assert(all.take(it.index() + 1).drop_last() =~= all.take(it.index() as int));
            assert(custom_to_wire(before.insert(k, p)) =~= custom_to_wire(before).insert(
                k,
                primitive::primitive_to_wire(p),
            ));
        }
    }
    assert(all.take(all.len() as int) =~= all);
    out
}

/// The milliseconds since the Unix epoch that a request to delay a job carries:
/// none for a time before the epoch.
pub open spec fn schedule_millis(at: Option<SystemTime>) -> Option<i64> {
    match at {
        Some(t) => if time::system_time_nanos(t) >= 0 {
            Some(time::wrap_i64(time::system_time_millis(t)) as i64)
        } else {
            None
        },
        None => None,
    }
}

/// What an optional trace context on the wire holds.
pub open spec fn opt_wire_view(tc: Option<pb::TraceContext>) -> Option<TraceContextView> {
    match tc {
        Some(tc) => Some(trace::wire_view(tc)),
        None => None,
    }
}

/// The wire form of an optional payload.
pub open spec fn opt_payload_to_wire(p: Option<Payload>) -> Option<pb::Payload> {
    match p {
        Some(p) => Some(primitive::payload_to_wire(p)),
        None => None,
    }
}

/// Whether a request on the wire says what an enqueue request holds.
pub open spec fn is_enqueue_request(r: pb::EnqueueRequest, v: EnqueueRequestView) -> bool {
    &&& r.queue@ == v.queue
    &&& r.job_type@ == v.job_type
    &&& r.payload == opt_payload_to_wire(v.payload)
    &&& text::opt_text(r.idempotency_key) == v.idempotency_key
    &&& r.priority == match v.priority {
        Some(p) => Some(p@ as u32),
        None => None,
    }
    &&& r.max_attempts == v.max_attempts
    &&& r.custom@ == custom_to_wire(v.custom)
    &&& opt_wire_view(r.trace_context) == v.trace_context
    &&& r.scheduled_at == schedule_millis(v.scheduled_at)
}

impl From<EnqueueRequest> for pb::EnqueueRequest {
    fn from(req: EnqueueRequest) -> (r: Self)
        ensures
            is_enqueue_request(r, req@),
            r.queue@.len() > 0,
            r.job_type@.len() > 0,
            r.trace_context matches Some(tc) ==> trace::valid_traceparent(tc.traceparent@),
    {
        proof {
            use_type_invariant(&req);
        }
        pb::EnqueueRequest {
            queue: req.queue,
            job_type: req.job_type,
            payload: match req.payload {
                Some(p) => Some(pb::Payload::from(p)),
                None => None,
            },
            idempotency_key: req.idempotency_key,
            priority: match req.priority {
                Some(p) => Some(p.get() as u32),
                None => None,
            },
            max_attempts: req.max_attempts,
            custom: custom_to_pb(req.custom),
            trace_context: match req.trace_context {
                Some(tc) => Some(pb::TraceContext::from(tc)),
                None => None,
            },
            scheduled_at: match req.scheduled_at {
                Some(t) => system_time_to_epoch_millis(t),
                None => None,
            },
        }
    }
}

impl vstd::std_specs::convert::FromSpecImpl<EnqueueRequest> for pb::EnqueueRequest {
    open spec fn obeys_from_spec() -> bool {
        false
    }

    open spec fn from_spec(req: EnqueueRequest) -> Self {
        arbitrary()
    }
}

/// Confirmation that a job was accepted by the server.
#[derive(Debug, Clone, PartialEq, Eq)]
pub struct EnqueueAck {
    /// The server-assigned job id (a UUID). When `deduplicated` is `true`, this
    /// is the id of the pre-existing job.
    pub job_id: String,
    /// `true` if an idempotency key matched an existing job, so this enqueue
    /// was a no-op.
    pub deduplicated: bool,
}

/// The confirmation that a response on the wire stands for.
pub open spec fn ack_from_wire(r: pb::EnqueueResponse) -> EnqueueAck {
    EnqueueAck { job_id: r.job_id, deduplicated: r.deduplicated }
}

impl From<pb::EnqueueResponse> for EnqueueAck {
    fn from(r: pb::EnqueueResponse) -> (a: Self) {
        EnqueueAck { job_id: r.job_id, deduplicated: r.deduplicated }
    }
}

impl vstd::std_specs::convert::FromSpecImpl<pb::EnqueueResponse> for EnqueueAck {
    open spec fn obeys_from_spec() -> bool {
        true
    }

    open spec fn from_spec(r: pb::EnqueueResponse) -> Self {
        ack_from_wire(r)
    }
}

/// Why the server refused a single job.
///
/// Every variant is *deterministic*: re-sending the same job against the same
/// server state produces the same rejection. Transient problems (a storage
/// outage, a dropped connection) are never reported here; they surface as a
/// [`ClientError`] instead.
#[derive(Debug, Clone, PartialEq)]
#[non_exhaustive]
pub enum JobRejection {
    /// The server is in strict mode and the target queue has not been declared.
    UnknownQueue { queue: String },
    /// The payload is over the queue's limit.
    PayloadTooLarge { limit: u64, actual: u64 },
    /// The queue restricts encodings and the payload's encoding is not on the
    /// allow-list.
    EncodingNotAllowed { encoding: String, allowed: Vec<String> },
    /// The queue restricts job types and this one is not on the allow-list.
    JobTypeNotAllowed { job_type: String, allowed: Vec<String> },
    /// The custom map has too many entries.
    CustomEntriesTooMany { limit: u32, actual: u32 },
    /// The custom map's total size is over its limit.
    CustomMapTooLarge { limit: u64, actual: u64 },
    /// A custom key is over its limit.
    CustomKeyTooLong { key: String, limit: u32, actual: u64 },
    /// The queue name is over its limit.
    QueueNameTooLong { limit: u32, actual: u64 },
    /// The job type is over its limit.
    JobTypeNameTooLong { limit: u32, actual: u64 },
    /// The idempotency key is over its limit.
    IdempotencyKeyTooLong { limit: u32, actual: u64 },
    /// The job is scheduled further out than the server's horizon.
    ScheduledTooFar { horizon_ms: u64, actual_ms: i64 },
    /// The request failed the server's structural validation (e.g. a required
    /// field was missing); `message` carries the detail.
    InvalidRequest { message: String },
    /// The server sent a rejection reason this client version does not
    /// recognize.
    Unknown,
}

impl JobRejection {
    /// The message of this rejection.
    pub open spec fn message(self) -> Seq<char> {
        match self {
            JobRejection::UnknownQueue { queue } => "queue "@ + text::str_debug(queue@)
                + " is not declared on the server (strict mode)"@,
            JobRejection::PayloadTooLarge { limit, actual } => "payload size "@ + text::decimal(
                actual as nat,
            ) + " bytes exceeds the queue limit of "@ + text::decimal(limit as nat),
            JobRejection::EncodingNotAllowed { encoding, allowed } => "payload encoding "@
                + text::str_debug(encoding@) + " is not allowed; accepted: "@ + text::debug_list(
                text::texts(allowed@),
            ),
            JobRejection::JobTypeNotAllowed { job_type, allowed } => "job_type "@ + text::str_debug(
                job_type@,
            ) + " is not accepted by this queue; accepted: "@ + text::debug_list(
                text::texts(allowed@),
            ),
            JobRejection::CustomEntriesTooMany { limit, actual } => "custom map has "@
                + text::decimal(actual as nat) + " entries, exceeding the queue limit of "@
                + text::decimal(limit as nat),
            JobRejection::CustomMapTooLarge { limit, actual } => "custom map's total size "@
                + text::decimal(actual as nat) + " bytes exceeds the queue limit of "@
                + text::decimal(limit as nat),
            JobRejection::CustomKeyTooLong { key, limit, actual } => "custom key "@
                + text::str_debug(key@) + " is "@ + text::decimal(actual as nat)
                + " bytes, exceeding the limit of "@ + text::decimal(limit as nat),
            JobRejection::QueueNameTooLong { limit, actual } => "queue name is "@ + text::decimal(
                actual as nat,
            ) + " bytes, exceeding the limit of "@ + text::decimal(limit as nat),
            JobRejection::JobTypeNameTooLong { limit, actual } => "job_type is "@ + text::decimal(
                actual as nat,
            ) + " bytes, exceeding the limit of "@ + text::decimal(limit as nat),
            JobRejection::IdempotencyKeyTooLong { limit, actual } => "idempotency_key is "@
                + text::decimal(actual as nat) + " bytes, exceeding the limit of "@ + text::decimal(
                limit as nat,
            ),
            JobRejection::ScheduledTooFar { horizon_ms, actual_ms } => "scheduled_at "@
                + text::signed_decimal(actual_ms as int) + "ms is beyond max_schedule_horizon_ms ("@
                + text::decimal(horizon_ms as nat) + "ms)"@,
            JobRejection::InvalidRequest { message } => "structural validation failed: "@
                + message@,
            JobRejection::Unknown => "server returned an unrecognized rejection variant"@,
        }
    }

    /// Writes the message of this rejection.
    pub fn to_string(&self) -> (s: String)
        ensures
            s@ == self.message(),
    {
        match self {
            JobRejection::UnknownQueue { queue } => "queue ".to_owned().concat(
                debug_string(queue.as_str()).as_str(),
            ).concat(" is not declared on the server (strict mode)"),
            JobRejection::PayloadTooLarge { limit, actual } => "payload size ".to_owned().concat(
                decimal_string(*actual).as_str(),
            ).concat(" bytes exceeds the queue limit of ").concat(decimal_string(*limit).as_str()),
            JobRejection::EncodingNotAllowed { encoding, allowed } => {
                "payload encoding ".to_owned().concat(
                    debug_string(encoding.as_str()).as_str(),
                ).concat(" is not allowed; accepted: ").concat(debug_strings(allowed).as_str())
            },
            JobRejection::JobTypeNotAllowed { job_type, allowed } => "job_type ".to_owned().concat(
                debug_string(job_type.as_str()).as_str(),
            ).concat(" is not accepted by this queue; accepted: ").concat(
                debug_strings(allowed).as_str(),
            ),
            JobRejection::CustomEntriesTooMany { limit, actual } => {
                "custom map has ".to_owned().concat(
                    decimal_string(*actual as u64).as_str(),
                ).concat(" entries, exceeding the queue limit of ").concat(
                    decimal_string(*limit as u64).as_str(),
                )
            },
            JobRejection::CustomMapTooLarge { limit, actual } => {
                "custom map's total size ".to_owned().concat(
                    decimal_string(*actual).as_str(),
                ).concat(" bytes exceeds the queue limit of ").concat(
                    decimal_string(*limit).as_str(),
                )
            },
            JobRejection::CustomKeyTooLong { key, limit, actual } => "custom key ".to_owned().concat(
                debug_string(key.as_str()).as_str(),
            ).concat(" is ").concat(decimal_string(*actual).as_str()).concat(
                " bytes, exceeding the limit of ",
            ).concat(decimal_string(*limit as u64).as_str()),
            JobRejection::QueueNameTooLong { limit, actual } => "queue name is ".to_owned().concat(
                decimal_string(*actual).as_str(),
            ).concat(" bytes, exceeding the limit of ").concat(
                decimal_string(*limit as u64).as_str(),
            ),
            JobRejection::JobTypeNameTooLong { limit, actual } => "job_type is ".to_owned().concat(
                decimal_string(*actual).as_str(),
            ).concat(" bytes, exceeding the limit of ").concat(
                decimal_string(*limit as u64).as_str(),
            ),
            JobRejection::IdempotencyKeyTooLong { limit, actual } => {
                "idempotency_key is ".to_owned().concat(decimal_string(*actual).as_str()).concat(
                    " bytes, exceeding the limit of ",
                ).concat(decimal_string(*limit as u64).as_str())
            },
            JobRejection::ScheduledTooFar { horizon_ms, actual_ms } => {
                "scheduled_at ".to_owned().concat(
                    signed_decimal_string(*actual_ms).as_str(),
                ).concat("ms is beyond max_schedule_horizon_ms (").concat(
                    decimal_string(*horizon_ms).as_str(),
                ).concat("ms)")
            },
            JobRejection::InvalidRequest { message } => {
                "structural validation failed: ".to_owned().concat(message.as_str())
            },
            JobRejection::Unknown => {
                "server returned an unrecognized rejection variant".to_owned()
            },
        }
    }
}

/// The rejection that a rejection on the wire stands for.
pub open spec fn rejection_from_wire(r: pb::JobRejection) -> JobRejection {
    match r.reason {
        Some(Reason::UnknownQueue(x)) => JobRejection::UnknownQueue { queue: x.queue },
        Some(Reason::PayloadTooLarge(x)) => JobRejection::PayloadTooLarge {
            limit: x.limit,
            actual: x.actual,
        },
        Some(Reason::EncodingNotAllowed(x)) => JobRejection::EncodingNotAllowed {
            encoding: x.encoding,
            allowed: x.allowed,
        },
        Some(Reason::JobTypeNotAllowed(x)) => JobRejection::JobTypeNotAllowed {
            job_type: x.job_type,
            allowed: x.allowed,
        },
        Some(Reason::CustomEntriesTooMany(x)) => JobRejection::CustomEntriesTooMany {
            limit: x.limit,
            actual: x.actual,
        },
        Some(Reason::CustomMapTooLarge(x)) => JobRejection::CustomMapTooLarge {
            limit: x.limit,
            actual: x.actual,
        },
        Some(Reason::CustomKeyTooLong(x)) => JobRejection::CustomKeyTooLong {
            key: x.key,
            limit: x.limit,
            actual: x.actual,
        },
        Some(Reason::QueueNameTooLong(x)) => JobRejection::QueueNameTooLong {
            limit: x.limit,
            actual: x.actual,
        },
        Some(Reason::JobTypeNameTooLong(x)) => JobRejection::JobTypeNameTooLong {
            limit: x.limit,
            actual: x.actual,
        },
        Some(Reason::IdempotencyKeyTooLong(x)) => JobRejection::IdempotencyKeyTooLong {
            limit: x.limit,
            actual: x.actual,
        },
        Some(Reason::ScheduledTooFar(x)) => JobRejection::ScheduledTooFar {
            horizon_ms: x.horizon_ms,
            actual_ms: x.actual_ms,
        },
        Some(Reason::InvalidRequest(x)) => JobRejection::InvalidRequest { message: x.message },
        None => JobRejection::Unknown,
    }
}

impl From<pb::JobRejection> for JobRejection {
    fn from(r: pb::JobRejection) -> (j: Self) {
        match r.reason {
            Some(Reason::UnknownQueue(x)) => JobRejection::UnknownQueue { queue: x.queue },
            Some(Reason::PayloadTooLarge(x)) => JobRejection::PayloadTooLarge {
                limit: x.limit,
                actual: x.actual,
            },
            Some(Reason::EncodingNotAllowed(x)) => JobRejection::EncodingNotAllowed {
                encoding: x.encoding,
                allowed: x.allowed,
            },
            Some(Reason::JobTypeNotAllowed(x)) => JobRejection::JobTypeNotAllowed {
                job_type: x.job_type,
                allowed: x.allowed,
            },
            Some(Reason::CustomEntriesTooMany(x)) => JobRejection::CustomEntriesTooMany {
                limit: x.limit,
                actual: x.actual,
            },
            Some(Reason::CustomMapTooLarge(x)) => JobRejection::CustomMapTooLarge {
                limit: x.limit,
                actual: x.actual,
            },
            Some(Reason::CustomKeyTooLong(x)) => JobRejection::CustomKeyTooLong {
                key: x.key,
                limit: x.limit,
                actual: x.actual,
            },
            Some(Reason::QueueNameTooLong(x)) => JobRejection::QueueNameTooLong {
                limit: x.limit,
                actual: x.actual,
            },
            Some(Reason::JobTypeNameTooLong(x)) => JobRejection::JobTypeNameTooLong {
                limit: x.limit,
                actual: x.actual,
            },
            Some(Reason::IdempotencyKeyTooLong(x)) => JobRejection::IdempotencyKeyTooLong {
                limit: x.limit,
                actual: x.actual,
            },
            Some(Reason::ScheduledTooFar(x)) => JobRejection::ScheduledTooFar {
                horizon_ms: x.horizon_ms,
                actual_ms: x.actual_ms,
            },
            Some(Reason::InvalidRequest(x)) => JobRejection::InvalidRequest { message: x.message },
            None => JobRejection::Unknown,
        }
    }
}

impl vstd::std_specs::convert::FromSpecImpl<pb::JobRejection> for JobRejection {
    open spec fn obeys_from_spec() -> bool {
        true
    }

    open spec fn from_spec(r: pb::JobRejection) -> Self {
        rejection_from_wire(r)
    }
}

/// A rejection is unknown exactly where the wire carries no reason, and no two
/// different rejections on the wire are read as the same.
pub proof fn rejections_are_told_apart(a: pb::JobRejection, b: pb::JobRejection)
    ensures
        rejection_from_wire(a) is Unknown <==> a.reason is None,
        rejection_from_wire(a) == rejection_from_wire(b) ==> a == b,
{
}

/// A single job's rejection within an atomic batch, paired with its position
/// in the request so the caller can identify which job failed.
#[derive(Debug, Clone, PartialEq)]
pub struct JobValidationError {
    /// Zero-based position of the offending job in the submitted batch.
    pub index: u32,
    /// Why that job was rejected.
    pub rejection: JobRejection,
}

/// The validation error that one on the wire stands for. A missing rejection is
/// unknown.
pub open spec fn validation_from_wire(e: pb::JobValidationError) -> JobValidationError {
    JobValidationError {
        index: e.index,
        rejection: match e.rejection {
            Some(r) => rejection_from_wire(r),
            None => JobRejection::Unknown,
        },
    }
}

impl From<pb::JobValidationError> for JobValidationError {
    fn from(e: pb::JobValidationError) -> (r: Self) {
        JobValidationError {
            index: e.index,
            rejection: match e.rejection {
                Some(r) => JobRejection::from(r),
                None => JobRejection::Unknown,
            },
        }
    }
}

impl vstd::std_specs::convert::FromSpecImpl<pb::JobValidationError> for JobValidationError {
    open spec fn obeys_from_spec() -> bool {
        true
    }

    open spec fn from_spec(e: pb::JobValidationError) -> Self {
        validation_from_wire(e)
    }
}

/// The error type of an atomic enqueue.
///
/// An atomic batch is all-or-nothing: if any job fails validation, *none* are
/// enqueued and every failure is reported together in
/// [`Validation`](Self::Validation).
#[derive(Debug)]
#[non_exhaustive]
pub enum AtomicEnqueueError {
    /// The call failed at the transport or protocol level; nothing about
    /// individual jobs is known.
    Client(ClientError),
    /// One or more jobs failed validation, so the whole batch was rejected.
    Validation(Vec<JobValidationError>),
}

impl AtomicEnqueueError {
    /// The message of this error.
    pub open spec fn message(self) -> Seq<char> {
        match self {
            AtomicEnqueueError::Client(e) => e.message(),
            AtomicEnqueueError::Validation(errors) => "atomic batch rejected: "@ + text::decimal(
                errors@.len(),
            ) + " job(s) failed validation"@,
        }
    }

    /// Writes the message of this error.
    pub fn to_string(&self) -> (s: String)
        ensures
            s@ == self.message(),
    {
        match self {
            AtomicEnqueueError::Client(e) => e.to_string(),
            AtomicEnqueueError::Validation(errors) => "atomic batch rejected: ".to_owned().concat(
                decimal_string(errors.len() as u64).as_str(),
            ).concat(" job(s) failed validation"),
        }
    }
}

impl From<ClientError> for AtomicEnqueueError {
    fn from(e: ClientError) -> (r: Self) {
        AtomicEnqueueError::Client(e)
    }
}

impl vstd::std_specs::convert::FromSpecImpl<ClientError> for AtomicEnqueueError {
    open spec fn obeys_from_spec() -> bool {
        true
    }

    open spec fn from_spec(e: ClientError) -> Self {
        AtomicEnqueueError::Client(e)
    }
}

impl From<tonic::Status> for AtomicEnqueueError {
    fn from(s: tonic::Status) -> (e: Self)
        ensures
            e matches AtomicEnqueueError::Client(c) && crate::client::errors::client_error_is(
                c,
                crate::status::status_code_spec(s),
                crate::status::status_text(s),
            ),
    {
        AtomicEnqueueError::Client(ClientError::from(s))
    }
}

impl vstd::std_specs::convert::FromSpecImpl<tonic::Status> for AtomicEnqueueError {
    open spec fn obeys_from_spec() -> bool {
        false
    }

    open spec fn from_spec(s: tonic::Status) -> Self {
        arbitrary()
    }
}

} // verus!
