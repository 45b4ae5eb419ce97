//! Talking to a server: errors, authentication, retries, and the contents of
//! each call.
//!
//! The calls themselves go over the network. What is sent, what is made of an
//! answer, and whether a failed call is tried again is decided here.
pub mod auth;
pub mod builder;
pub mod calls;
pub mod endpoint;
pub mod errors;
pub mod retry;

pub use auth::{trace_headers, ApiKeyInterceptor, TraceHeaders};
pub use builder::{root_cause, ConnectPlan, ErrorChain, SeppClient, SeppClientBuilder};
pub use calls::RetryDirective;
pub use endpoint::endpoint;
pub use errors::{ClientError, EnqueueError, LeaseError, ReserveError};
pub use retry::{is_transient, RetryPolicy, RetryState, RetryStep};
