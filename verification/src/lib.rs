//! A client library for the [sepp](https://github.com/sepp-org/sepp) job queue.
//!
//! The library holds what a client and a worker decide: which requests are
//! valid, what is sent for them, what is made of each answer, which failures
//! are retried, and what becomes of a job. Connections, timers and tasks are
//! left to the program around it.
//!
//! # Concepts
//!
//! **Queues and job types.** Every job is enqueued onto a named queue and
//! tagged with a `job_type`. Workers reserve from one or more queues and
//! dispatch each job to the handler registered for its `job_type`.
//!
//! **Payloads.** Every job can carry an opaque blob of bytes plus an encoding
//! hint. For a primitive key-value map, use
//! [`custom`](EnqueueRequest::with_custom_entry) instead.
//!
//! **Leases and redelivery.** A reserved job is leased to the worker for a
//! bounded duration. The worker must ack, nack, or extend the lease before it
//! expires; otherwise the server redelivers the job to another worker (with
//! [`attempt`](JobCtx::attempt) incremented) until `max_attempts` is reached
//! and it is dead-lettered.
pub mod client;
pub mod double;
pub mod job;
pub mod laws;
pub mod otel;
pub mod payload_converter;
pub mod pb;
pub mod primitive;
pub mod request;
pub mod reserve;
pub mod server_info;
pub mod status;
pub mod string_map;
pub mod text;
pub mod time;
pub mod trace;
pub mod worker;

pub use double::Double;
pub use job::{Job, JobConversionError, JobCtx};
pub use primitive::{Payload, Primitive, Priority, PriorityOutOfRange};
pub use request::{
    AtomicEnqueueError, EnqueueAck, EnqueueRequest, EnqueueRequestBuilderError, JobRejection,
    JobValidationError,
};
pub use reserve::{ReserveOptions, ReserveOptionsError};
pub use server_info::{ServerInfo, ServerInfoError};
pub use string_map::StringMap;
pub use trace::{TraceContext, TraceContextError};
