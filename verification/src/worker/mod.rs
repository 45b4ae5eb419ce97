//! A worker that reserves jobs, dispatches each to the handler registered for
//! its `job_type`, and acks on success or nacks on failure.
//!
//! A handler's return value decides the job's fate: `Ok(())` acks it, and a
//! [`HandlerError`] nacks it with the corresponding
//! [`RetryDirective`](crate::client::RetryDirective). A handler that panics is
//! nacked rather than bringing the worker down.
//!
//! The decisions of the loop stand here; running handlers, sleeping and calling
//! the server is left to its driver.
pub mod config;
pub mod dispatch;
pub mod heartbeat;
pub mod identity;
pub mod run;

pub use config::{AutoExtend, HandlerError, Worker, WorkerBuilderError};
pub use dispatch::{
    nack_backoff, nack_outcome, reserve_outcome, settle, unhandled, HandlerEnd, Verdict,
};
pub use heartbeat::{after_extend, heartbeat_interval, next_heartbeat, HeartbeatStep};
pub use identity::{choose_hostname, default_worker_id, worker_id_of};
pub use run::{Action, Event, RunState};
