//! The errors of the calls.
use vstd::prelude::*;

use crate::job::JobConversionError;
use crate::request::JobRejection;
use crate::server_info::ServerInfoError;
use crate::status::{self, status_code, Code};
use crate::text::{self, decimal_string};

verus! {

/// The general client error type, shared by most calls.
///
/// gRPC status codes are mapped onto these variants: `Unavailable` /
/// `DeadlineExceeded` / `Aborted` / `Cancelled` become
/// [`Transport`](Self::Transport), `ResourceExhausted` becomes
/// [`Overloaded`](Self::Overloaded), and so on.
#[derive(Debug)]
#[non_exhaustive]
pub enum ClientError {
    /// Establishing the connection failed.
    Connect { addr: String, reason: String },
    /// The configured API key could not be encoded as an HTTP header value.
    InvalidApiKey,
    /// A transient transport-level failure (connection dropped, deadline
    /// exceeded, request aborted/cancelled). Generally safe to retry.
    Transport(String),
    /// The server rejected the credentials (missing/invalid API key, or
    /// permission denied).
    Unauthenticated(String),
    /// The server is shedding load (`ResourceExhausted`); back off and retry.
    Overloaded(String),
    /// The server rejected the request as malformed (`InvalidArgument`).
    InvalidRequest(String),
    /// The server hit an internal error (`Internal` / `DataLoss` / `Unknown`).
    ServerInternal(String),
    /// The server returned a status code this client does not map to a more
    /// specific variant.
    UnexpectedStatus { code: Code, message: String },
    /// An enqueue was attempted with no jobs.
    EmptyBatch,
    /// The server returned a different number of results than jobs sent: a
    /// protocol violation.
    BatchResultCountMismatch { expected: usize, got: usize },
    /// A response was missing a field the protocol requires.
    MalformedResponse(&'static str),
    /// A job in a response could not be decoded.
    MalformedJob(JobConversionError),
    /// A server-info response could not be decoded.
    MalformedServerInfo(ServerInfoError),
}

/// Whether `e` is the error for a call that failed with this code and text.
pub open spec fn client_error_is(e: ClientError, code: Code, text: Seq<char>) -> bool {
    match code {
        Code::Unavailable | Code::DeadlineExceeded | Code::Aborted | Code::Cancelled => {
            e matches ClientError::Transport(m) && m@ == text
        },
        Code::Unauthenticated | Code::PermissionDenied => {
            e matches ClientError::Unauthenticated(m) && m@ == text
        },
        Code::ResourceExhausted => e matches ClientError::Overloaded(m) && m@ == text,
        Code::InvalidArgument => e matches ClientError::InvalidRequest(m) && m@ == text,
        Code::Internal | Code::DataLoss | Code::Unknown => {
            e matches ClientError::ServerInternal(m) && m@ == text
        },
        _ => e matches ClientError::UnexpectedStatus { code: c, message: m } && c == code && m@
            == text,
    }
}

impl ClientError {
    /// The message of this error.
    pub open spec fn message(self) -> Seq<char> {
        match self {
            ClientError::Connect { addr, reason } => "could not connect to Sepp server at "@ + addr@
                + ": "@ + reason@,
            ClientError::InvalidApiKey => "the API key is not a valid HTTP header value"@,
            ClientError::Transport(m) => "transport failure: "@ + m@,
            ClientError::Unauthenticated(m) => "authentication failed: "@ + m@,
            ClientError::Overloaded(m) => "server is overloaded: "@ + m@,
            ClientError::InvalidRequest(m) => "invalid request: "@ + m@,
            ClientError::ServerInternal(m) => "server internal error: "@ + m@,
            ClientError::UnexpectedStatus { code, message } => "server returned unexpected status "@
                + code.name_spec() + ": "@ + message@,
            ClientError::EmptyBatch => "empty batch"@,
            ClientError::BatchResultCountMismatch { expected, got } => "server returned "@
                + text::decimal(got as nat) + " results for a batch of "@ + text::decimal(expected as nat)
                + " jobs"@,
            ClientError::MalformedResponse(m) => "malformed response: "@ + m@,
            ClientError::MalformedJob(e) => "server returned a malformed job: "@ + e.message(),
            ClientError::MalformedServerInfo(e) => "server returned malformed server info: "@
                + e.message(),
        }
    }

    /// Writes the message of this error.
    pub fn to_string(&self) -> (s: String)
        ensures
            s@ == self.message(),
    {
        match self {
            ClientError::Connect { addr, reason } => "could not connect to Sepp server at ".to_owned()
                .concat(addr.as_str()).concat(": ").concat(reason.as_str()),
            ClientError::InvalidApiKey => {
                "the API key is not a valid HTTP header value".to_owned()
            },
            ClientError::Transport(m) => "transport failure: ".to_owned().concat(m.as_str()),
            ClientError::Unauthenticated(m) => "authentication failed: ".to_owned().concat(
                m.as_str(),
            ),
            ClientError::Overloaded(m) => "server is overloaded: ".to_owned().concat(m.as_str()),
            ClientError::InvalidRequest(m) => "invalid request: ".to_owned().concat(m.as_str()),
            ClientError::ServerInternal(m) => "server internal error: ".to_owned().concat(
                m.as_str(),
            ),
            ClientError::UnexpectedStatus { code, message } => {
                "server returned unexpected status ".to_owned().concat(code.name()).concat(
                    ": ",
                ).concat(message.as_str())
            },
            ClientError::EmptyBatch => "empty batch".to_owned(),
            ClientError::BatchResultCountMismatch { expected, got } => "server returned ".to_owned()
                .concat(decimal_string(*got as u64).as_str()).concat(
                " results for a batch of ",
            ).concat(decimal_string(*expected as u64).as_str()).concat(" jobs"),
            ClientError::MalformedResponse(m) => "malformed response: ".to_owned().concat(m),
            ClientError::MalformedJob(e) => "server returned a malformed job: ".to_owned().concat(
                e.to_string().as_str(),
            ),
            ClientError::MalformedServerInfo(e) => {
                "server returned malformed server info: ".to_owned().concat(e.to_string().as_str())
            },
        }
    }

    /// The error for a call that failed with this code and text.
    pub fn of_status(code: Code, text: &str) -> (e: ClientError)
        ensures
            client_error_is(e, code, text@),
    {
        let message = text.to_owned();
        match code {
            Code::Unavailable | Code::DeadlineExceeded | Code::Aborted | Code::Cancelled => {
                ClientError::Transport(message)
            },
            Code::Unauthenticated | Code::PermissionDenied => ClientError::Unauthenticated(message),
            Code::ResourceExhausted => ClientError::Overloaded(message),
            Code::InvalidArgument => ClientError::InvalidRequest(message),
            Code::Internal | Code::DataLoss | Code::Unknown => ClientError::ServerInternal(message),
            _ => ClientError::UnexpectedStatus { code, message },
        }
    }
}

impl From<tonic::Status> for ClientError {
    fn from(s: tonic::Status) -> (e: Self)
        ensures
            client_error_is(e, status::status_code_spec(s), status::status_text(s)),
    {
        ClientError::of_status(status_code(&s), s.message())
    }
}

impl vstd::std_specs::convert::FromSpecImpl<tonic::Status> for ClientError {
    open spec fn obeys_from_spec() -> bool {
        false
    }

    open spec fn from_spec(s: tonic::Status) -> Self {
        arbitrary()
    }
}

impl From<JobConversionError> for ClientError {
    fn from(e: JobConversionError) -> (r: Self) {
        ClientError::MalformedJob(e)
    }
}

impl vstd::std_specs::convert::FromSpecImpl<JobConversionError> for ClientError {
    open spec fn obeys_from_spec() -> bool {
        true
    }

    open spec fn from_spec(e: JobConversionError) -> Self {
        ClientError::MalformedJob(e)
    }
}

impl From<ServerInfoError> for ClientError {
    fn from(e: ServerInfoError) -> (r: Self) {
        ClientError::MalformedServerInfo(e)
    }
}

impl vstd::std_specs::convert::FromSpecImpl<ServerInfoError> for ClientError {
    open spec fn obeys_from_spec() -> bool {
        true
    }

    open spec fn from_spec(e: ServerInfoError) -> Self {
        ClientError::MalformedServerInfo(e)
    }
}

/// The error type of enqueueing a single job.
///
/// Separates a deterministic per-job [`JobRejection`] from a
/// connection/protocol-level [`ClientError`].
#[derive(Debug)]
#[non_exhaustive]
pub enum EnqueueError {
    /// The server accepted the request but rejected this specific job.
    Rejected(JobRejection),
    /// The call failed before a per-job verdict was reached.
    Client(ClientError),
}

impl EnqueueError {
    /// The message of this error.
    pub open spec fn message(self) -> Seq<char> {
        match self {
            EnqueueError::Rejected(r) => "server rejected the job: "@ + r.message(),
            EnqueueError::Client(e) => e.message(),
        }
    }

    /// Writes the message of this error.
    pub fn to_string(&self) -> (s: String)
        ensures
            s@ == self.message(),
    {
        match self {
            EnqueueError::Rejected(r) => "server rejected the job: ".to_owned().concat(
                r.to_string().as_str(),
            ),
            EnqueueError::Client(e) => e.to_string(),
        }
    }
}

impl From<ClientError> for EnqueueError {
    fn from(e: ClientError) -> (r: Self) {
        EnqueueError::Client(e)
    }
}

impl vstd::std_specs::convert::FromSpecImpl<ClientError> for EnqueueError {
    open spec fn obeys_from_spec() -> bool {
        true
    }

    open spec fn from_spec(e: ClientError) -> Self {
        EnqueueError::Client(e)
    }
}

impl From<tonic::Status> for EnqueueError {
    fn from(s: tonic::Status) -> (e: Self)
        ensures
            e matches EnqueueError::Client(c) && client_error_is(
                c,
                status::status_code_spec(s),
                status::status_text(s),
            ),
    {
        EnqueueError::Client(ClientError::from(s))
    }
}

impl vstd::std_specs::convert::FromSpecImpl<tonic::Status> for EnqueueError {
    open spec fn obeys_from_spec() -> bool {
        false
    }

    open spec fn from_spec(s: tonic::Status) -> Self {
        arbitrary()
    }
}

/// The error type of the lease operations.
///
/// [`JobNotFound`](Self::JobNotFound) and [`AttemptMismatch`](Self::AttemptMismatch)
/// both mean the worker no longer holds the lease.
#[derive(Debug)]
#[non_exhaustive]
pub enum LeaseError {
    /// No in-flight job has this id: it was already acked, the lease expired,
    /// or it never existed.
    JobNotFound,
    /// The attempt number no longer matches the server's: the lease was
    /// reassigned to another delivery.
    AttemptMismatch,
    /// A transport- or protocol-level failure.
    Client(ClientError),
}

/// Whether `e` is the error for a lease call that failed with this code and
/// text.
pub open spec fn lease_error_is(e: LeaseError, code: Code, text: Seq<char>) -> bool {
    match code {
        Code::NotFound => e is JobNotFound,
        Code::FailedPrecondition => e is AttemptMismatch,
        _ => e matches LeaseError::Client(c) && client_error_is(c, code, text),
    }
}

impl LeaseError {
    /// The message of this error.
    pub open spec fn message(self) -> Seq<char> {
        match self {
            LeaseError::JobNotFound => {
                "no in-flight job with this id (already acked, expired, or never existed)"@
            },
            LeaseError::AttemptMismatch => "attempt mismatch: the lease was reassigned"@,
            LeaseError::Client(e) => e.message(),
        }
    }

    /// Writes the message of this error.
    pub fn to_string(&self) -> (s: String)
        ensures
            s@ == self.message(),
    {
        match self {
            LeaseError::JobNotFound => {
                "no in-flight job with this id (already acked, expired, or never existed)".to_owned()
            },
            LeaseError::AttemptMismatch => "attempt mismatch: the lease was reassigned".to_owned(),
            LeaseError::Client(e) => e.to_string(),
        }
    }

    /// The error for a lease call that failed with this code and text.
    pub fn of_status(code: Code, text: &str) -> (e: LeaseError)
        ensures
            lease_error_is(e, code, text@),
    {
        match code {
            Code::NotFound => LeaseError::JobNotFound,
            Code::FailedPrecondition => LeaseError::AttemptMismatch,
            _ => LeaseError::Client(ClientError::of_status(code, text)),
        }
    }
}

impl From<ClientError> for LeaseError {
    fn from(e: ClientError) -> (r: Self) {
        LeaseError::Client(e)
    }
}

impl vstd::std_specs::convert::FromSpecImpl<ClientError> for LeaseError {
    open spec fn obeys_from_spec() -> bool {
        true
    }

    open spec fn from_spec(e: ClientError) -> Self {
        LeaseError::Client(e)
    }
}

impl From<tonic::Status> for LeaseError {
    fn from(s: tonic::Status) -> (e: Self)
        ensures
            lease_error_is(e, status::status_code_spec(s), status::status_text(s)),
    {
        LeaseError::of_status(status_code(&s), s.message())
    }
}

impl vstd::std_specs::convert::FromSpecImpl<tonic::Status> for LeaseError {
    open spec fn obeys_from_spec() -> bool {
        false
    }

    open spec fn from_spec(s: tonic::Status) -> Self {
        arbitrary()
    }
}

/// The error type of a reserve call.
#[derive(Debug)]
#[non_exhaustive]
pub enum ReserveError {
    /// The server is in strict mode and one or more requested queues are not
    /// declared; the message lists them.
    UnknownQueues(String),
    /// A transport- or protocol-level failure.
    Client(ClientError),
}

/// Whether `e` is the error for a reserve call that failed with this code and
/// text.
pub open spec fn reserve_error_is(e: ReserveError, code: Code, text: Seq<char>) -> bool {
    match code {
        Code::FailedPrecondition => e matches ReserveError::UnknownQueues(m) && m@ == text,
        _ => e matches ReserveError::Client(c) && client_error_is(c, code, text),
    }
}

impl ReserveError {
    /// The message of this error.
    pub open spec fn message(self) -> Seq<char> {
        match self {
            ReserveError::UnknownQueues(m) => "requested queues are not declared on the server: "@
                + m@,
            ReserveError::Client(e) => e.message(),
        }
    }

    /// Writes the message of this error.
    pub fn to_string(&self) -> (s: String)
        ensures
            s@ == self.message(),
    {
        match self {
            ReserveError::UnknownQueues(m) => {
                "requested queues are not declared on the server: ".to_owned().concat(m.as_str())
            },
            ReserveError::Client(e) => e.to_string(),
        }
    }

    /// The error for a reserve call that failed with this code and text.
    pub fn of_status(code: Code, text: &str) -> (e: ReserveError)
        ensures
            reserve_error_is(e, code, text@),
    {
        match code {
            Code::FailedPrecondition => ReserveError::UnknownQueues(text.to_owned()),
            _ => ReserveError::Client(ClientError::of_status(code, text)),
        }
    }
}

impl From<ClientError> for ReserveError {
    fn from(e: ClientError) -> (r: Self) {
        ReserveError::Client(e)
    }
}

impl vstd::std_specs::convert::FromSpecImpl<ClientError> for ReserveError {
    open spec fn obeys_from_spec() -> bool {
        true
    }

    open spec fn from_spec(e: ClientError) -> Self {
        ReserveError::Client(e)
    }
}

impl From<tonic::Status> for ReserveError {
    fn from(s: tonic::Status) -> (e: Self)
        ensures
            reserve_error_is(e, status::status_code_spec(s), status::status_text(s)),
    {
        ReserveError::of_status(status_code(&s), s.message())
    }
}

impl vstd::std_specs::convert::FromSpecImpl<tonic::Status> for ReserveError {
    open spec fn obeys_from_spec() -> bool {
        false
    }

    open spec fn from_spec(s: tonic::Status) -> Self {
        arbitrary()
    }
}

} // verus!
