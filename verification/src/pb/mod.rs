//! The messages of the queue protocol, as plain values.
use vstd::prelude::*;

use crate::string_map::StringMap;

pub mod enqueue_atomic_response;
pub mod job_rejection;
pub mod job_result;
pub mod nack_retry;
pub mod primitive_value;

verus! {

/// The opaque body of a job on the wire.
#[derive(Debug, Clone, PartialEq, Eq)]
pub struct Payload {
    pub data: Vec<u8>,
    pub encoding: String,
}

/// A value of the custom map on the wire; it may be unset.
#[derive(Debug, Clone, PartialEq)]
pub struct PrimitiveValue {
    pub value: Option<primitive_value::Value>,
}

/// A W3C trace context on the wire, not yet validated.
#[derive(Debug, Clone, PartialEq, Eq)]
pub struct TraceContext {
    pub traceparent: String,
    pub tracestate: Option<String>,
}

/// A span of time: whole seconds and the nanoseconds beyond them.
#[derive(Debug, Clone, Copy, PartialEq, Eq)]
pub struct ProtoDuration {
    pub seconds: i64,
    pub nanos: i32,
}

/// A point in time: whole seconds since the Unix epoch and the nanoseconds
/// beyond them.
#[derive(Debug, Clone, Copy, PartialEq, Eq)]
pub struct Timestamp {
    pub seconds: i64,
    pub nanos: i32,
}

/// A job to enqueue.
#[derive(Debug, Clone)]
pub struct EnqueueRequest {
    pub queue: String,
    pub job_type: String,
    pub payload: Option<Payload>,
    pub idempotency_key: Option<String>,
    pub priority: Option<u32>,
    pub max_attempts: Option<u32>,
    pub custom: StringMap<PrimitiveValue>,
    pub trace_context: Option<TraceContext>,
    pub scheduled_at: Option<i64>,
}

/// A batch of jobs to enqueue.
#[derive(Debug, Clone)]
pub struct EnqueueBatchRequest {
    pub jobs: Vec<EnqueueRequest>,
}

/// An accepted job.
#[derive(Debug, Clone, PartialEq, Eq)]
pub struct EnqueueResponse {
    pub job_id: String,
    pub deduplicated: bool,
}

/// The outcome of one job of a batch; it may be unset.
#[derive(Debug, Clone, PartialEq, Eq)]
pub struct JobResult {
    pub outcome: Option<job_result::Outcome>,
}

/// The outcomes of a batch, one for each job.
#[derive(Debug, Clone, PartialEq, Eq)]
pub struct EnqueueBatchResponse {
    pub results: Vec<JobResult>,
}

/// All jobs of an atomic batch were accepted.
#[derive(Debug, Clone, PartialEq, Eq)]
pub struct EnqueueAtomicSuccess {
    pub responses: Vec<EnqueueResponse>,
}

/// An atomic batch was refused.
#[derive(Debug, Clone, PartialEq, Eq)]
pub struct EnqueueAtomicRejection {
    pub errors: Vec<JobValidationError>,
}

/// The outcome of an atomic batch; it may be unset.
#[derive(Debug, Clone, PartialEq, Eq)]
pub struct EnqueueAtomicResponse {
    pub outcome: Option<enqueue_atomic_response::Outcome>,
}

/// Why a job was refused; it may be unset.
#[derive(Debug, Clone, PartialEq, Eq)]
pub struct JobRejection {
    pub reason: Option<job_rejection::Reason>,
}

/// The refusal of one job of an atomic batch.
#[derive(Debug, Clone, PartialEq, Eq)]
pub struct JobValidationError {
    pub index: u32,
    pub rejection: Option<JobRejection>,
}

/// The queue is not declared.
#[derive(Debug, Clone, PartialEq, Eq)]
pub struct UnknownQueue {
    pub queue: String,
}

/// The payload is over its limit.
#[derive(Debug, Clone, PartialEq, Eq)]
pub struct PayloadTooLarge {
    pub limit: u64,
    pub actual: u64,
}

/// The encoding is not on the allow-list.
#[derive(Debug, Clone, PartialEq, Eq)]
pub struct EncodingNotAllowed {
    pub encoding: String,
    pub allowed: Vec<String>,
}

/// The job type is not on the allow-list.
#[derive(Debug, Clone, PartialEq, Eq)]
pub struct JobTypeNotAllowed {
    pub job_type: String,
    pub allowed: Vec<String>,
}

/// The custom map has too many entries.
#[derive(Debug, Clone, PartialEq, Eq)]
pub struct CustomEntriesTooMany {
    pub limit: u32,
    pub actual: u32,
}

/// The custom map is over its limit.
#[derive(Debug, Clone, PartialEq, Eq)]
pub struct CustomMapTooLarge {
    pub limit: u64,
    pub actual: u64,
}

/// A custom key is over its limit.
#[derive(Debug, Clone, PartialEq, Eq)]
pub struct CustomKeyTooLong {
    pub key: String,
    pub limit: u32,
    pub actual: u64,
}

/// The queue name is over its limit.
#[derive(Debug, Clone, PartialEq, Eq)]
pub struct QueueNameTooLong {
    pub limit: u32,
    pub actual: u64,
}

/// The job type is over its limit.
#[derive(Debug, Clone, PartialEq, Eq)]
pub struct JobTypeNameTooLong {
    pub limit: u32,
    pub actual: u64,
}

/// The idempotency key is over its limit.
#[derive(Debug, Clone, PartialEq, Eq)]
pub struct IdempotencyKeyTooLong {
    pub limit: u32,
    pub actual: u64,
}

/// The job is scheduled beyond the horizon.
#[derive(Debug, Clone, PartialEq, Eq)]
pub struct ScheduledTooFar {
    pub horizon_ms: u64,
    pub actual_ms: i64,
}

/// The request failed structural validation.
#[derive(Debug, Clone, PartialEq, Eq)]
pub struct InvalidRequest {
    pub message: String,
}

/// A request for jobs.
#[derive(Debug, Clone, PartialEq, Eq)]
pub struct ReserveRequest {
    pub queues: Vec<String>,
    pub wait_timeout_ms: u64,
    pub lease_duration_ms: u64,
    pub worker_id: Option<String>,
    pub max_jobs: Option<u32>,
}

/// A leased job.
#[derive(Debug, Clone)]
pub struct Job {
    pub id: String,
    pub job_type: String,
    pub payload: Option<Payload>,
    pub priority: u32,
    pub trace_context: Option<TraceContext>,
    pub enqueued_at: i64,
    pub attempt: u32,
    pub max_attempts: u32,
    pub lease_expires_at: i64,
    pub custom: StringMap<PrimitiveValue>,
    pub scheduled_at: Option<i64>,
}

/// The jobs that a reserve call leased.
#[derive(Debug, Clone)]
pub struct ReserveResponse {
    pub jobs: Vec<Job>,
}

/// A job is done.
#[derive(Debug, Clone, PartialEq, Eq)]
pub struct AckRequest {
    pub job_id: String,
    pub attempt: u32,
    pub worker_id: Option<String>,
}

/// How a failed job is retried; it may be unset.
#[derive(Debug, Clone, PartialEq, Eq)]
pub struct NackRetry {
    pub strategy: Option<nack_retry::Strategy>,
}

/// A job failed.
#[derive(Debug, Clone, PartialEq, Eq)]
pub struct NackRequest {
    pub job_id: String,
    pub attempt: u32,
    pub reason: Option<String>,
    pub retry: Option<NackRetry>,
    pub worker_id: Option<String>,
}

/// What became of a failed job.
#[derive(Debug, Clone, PartialEq, Eq)]
pub struct NackResponse {
    pub dead_lettered: bool,
}

/// A lease is to last longer.
#[derive(Debug, Clone, PartialEq, Eq)]
pub struct ExtendRequest {
    pub job_id: String,
    pub attempt: u32,
    pub lease_duration: Option<ProtoDuration>,
    pub worker_id: Option<String>,
}

/// The new end of a lease.
#[derive(Debug, Clone, PartialEq, Eq)]
pub struct ExtendResponse {
    pub lease_expires_at: Option<Timestamp>,
}

/// A request for the server's version, capabilities and limits.
#[derive(Debug, Clone, PartialEq, Eq)]
pub struct GetServerInfoRequest {}

/// The server's version, capabilities and limits.
#[derive(Debug, Clone, PartialEq, Eq)]
pub struct GetServerInfoResponse {
    pub server_version: String,
    pub supported_protocol_versions: Vec<String>,
    pub server_time_ms: i64,
    pub restricts_encodings: bool,
    pub allowed_encodings: Vec<String>,
    pub max_payload_bytes: u64,
    pub max_custom_entries: u32,
    pub max_custom_total_bytes: u64,
    pub max_custom_key_bytes: u32,
    pub max_queue_name_bytes: u32,
    pub max_job_type_bytes: u32,
    pub max_idempotency_key_bytes: u32,
    pub max_schedule_horizon_ms: u64,
    pub max_enqueue_batch: u32,
    pub max_reserve_batch: u32,
    pub max_reserve_queues: u32,
    pub max_wait_timeout_ms: u64,
    pub max_lease_duration_ms: u64,
    pub strict_queues: bool,
}

/// A request to drain dead-lettered jobs.
#[derive(Debug, Clone, PartialEq, Eq)]
pub struct DrainDeadLettersRequest {
    pub queue: Option<String>,
    pub max: Option<u32>,
}

} // verus!
