//! What a server says of itself.
use std::time::SystemTime;
use vstd::prelude::*;

use crate::pb;
use crate::text::{self, signed_decimal_string};
use crate::time::{self, millis_to_system_time};

verus! {

/// The server's version, capabilities, and limits.
///
/// The various `max_*` fields mirror the limits behind the rejections of single
/// jobs. Fetching this once at startup lets a producer validate jobs locally
/// and avoid round-trips that would only be rejected. The limits are the
/// server's *defaults*; an individual queue may be configured more or less
/// strictly.
#[derive(Debug, Clone, PartialEq)]
pub struct ServerInfo {
    /// Server version (a semver string).
    pub version: String,
    /// Protocol versions the server supports.
    pub supported_protocol_versions: Vec<String>,
    /// The server's current wall-clock time, useful for detecting clock skew.
    pub server_time: SystemTime,
    /// If `true`, only encodings in [`allowed_encodings`](Self::allowed_encodings)
    /// are accepted; if `false`, any encoding is accepted.
    pub restricts_encodings: bool,
    /// The accepted encodings when [`restricts_encodings`](Self::restricts_encodings)
    /// is set.
    pub allowed_encodings: Vec<String>,
    /// Maximum payload size in bytes.
    pub max_payload_size: u64,
    /// Maximum entries in the custom map.
    pub max_custom_entries: u32,
    /// Maximum total bytes across the custom map.
    pub max_custom_total_bytes: u64,
    /// Maximum bytes in a single custom key.
    pub max_custom_key_bytes: u32,
    /// Maximum bytes in a queue name.
    pub max_queue_name_bytes: u32,
    /// Maximum bytes in a job type.
    pub max_job_type_bytes: u32,
    /// Maximum bytes in an idempotency key.
    pub max_idempotency_key_bytes: u32,
    /// How far ahead a job may be scheduled, in ms.
    pub max_schedule_horizon_ms: u64,
    /// Maximum jobs in one enqueue batch; larger batches fail the whole request.
    pub max_enqueue_batch: u32,
    /// Maximum jobs returned by one reserve; larger requests are clamped, not rejected.
    pub max_reserve_batch: u32,
    /// Maximum queues one reserve may list; exceeding this is an error.
    pub max_reserve_queues: u32,
    /// Maximum long-poll wait in ms; larger requests are clamped.
    pub max_wait_timeout_ms: u64,
    /// Maximum lease duration in ms; larger requests are clamped.
    pub max_lease_duration_ms: u64,
    /// If `true`, enqueueing to an undeclared queue is rejected; if `false`,
    /// queues are created on demand.
    pub strict_queues: bool,
}

/// Returned when a server-info response cannot be decoded into a
/// [`ServerInfo`].
#[derive(Debug)]
pub enum ServerInfoError {
    /// A required field (named in the payload) was absent.
    MissingField(&'static str),
    /// `server_time_ms` was not a representable [`SystemTime`].
    InvalidServerTime(i64),
}

impl ServerInfoError {
    /// The message of this error.
    pub open spec fn message(self) -> Seq<char> {
        match self {
            ServerInfoError::MissingField(field) => "server info is missing required field `"@
                + field@ + "`"@,
            ServerInfoError::InvalidServerTime(ms) => "server_time_ms is not a representable time ("@
                + text::signed_decimal(ms as int) + "ms)"@,
        }
    }

    /// Writes the message of this error.
    pub fn to_string(&self) -> (s: String)
        ensures
            s@ == self.message(),
    {
        match self {
            ServerInfoError::MissingField(field) => {
                "server info is missing required field `".to_owned().concat(field).concat("`")
            },
            ServerInfoError::InvalidServerTime(ms) => {
                "server_time_ms is not a representable time (".to_owned().concat(
                    signed_decimal_string(*ms).as_str(),
                ).concat("ms)")
            },
        }
    }
}

/// The server info that a response on the wire stands for, with the server's
/// time as given.
pub open spec fn server_info_of(
    r: pb::GetServerInfoResponse,
    server_time: SystemTime,
) -> ServerInfo {
    ServerInfo {
        version: r.server_version,
        supported_protocol_versions: r.supported_protocol_versions,
        server_time,
        restricts_encodings: r.restricts_encodings,
        allowed_encodings: r.allowed_encodings,
        max_payload_size: r.max_payload_bytes,
        max_custom_entries: r.max_custom_entries,
        max_custom_total_bytes: r.max_custom_total_bytes,
        max_custom_key_bytes: r.max_custom_key_bytes,
        max_queue_name_bytes: r.max_queue_name_bytes,
        max_job_type_bytes: r.max_job_type_bytes,
        max_idempotency_key_bytes: r.max_idempotency_key_bytes,
        max_schedule_horizon_ms: r.max_schedule_horizon_ms,
        max_enqueue_batch: r.max_enqueue_batch,
        max_reserve_batch: r.max_reserve_batch,
        max_reserve_queues: r.max_reserve_queues,
        max_wait_timeout_ms: r.max_wait_timeout_ms,
        max_lease_duration_ms: r.max_lease_duration_ms,
        strict_queues: r.strict_queues,
    }
}

/// Whether `res` is what decoding a response gives, where its time is read as
/// given: an error without a version, or else without a time.
pub open spec fn is_server_info(
    res: Result<ServerInfo, ServerInfoError>,
    r: pb::GetServerInfoResponse,
    server_time: Option<SystemTime>,
) -> bool {
    match res {
        Ok(info) => r.server_version@.len() > 0 && server_time is Some && info == server_info_of(
            r,
            server_time->0,
        ),
        Err(ServerInfoError::MissingField(f)) => r.server_version@.len() == 0 && f@
            == "server_version"@,
        Err(ServerInfoError::InvalidServerTime(ms)) => r.server_version@.len() > 0
            && server_time is None && ms == r.server_time_ms,
    }
}

/// Decodes a response whose time was read as given.
pub fn server_info_with_time(
    r: pb::GetServerInfoResponse,
    server_time: Option<SystemTime>,
) -> (res: Result<ServerInfo, ServerInfoError>)
    ensures
        is_server_info(res, r, server_time),
{
    if r.server_version.as_str().is_empty() {
        return Err(ServerInfoError::MissingField("server_version"));
    }
    let server_time = match server_time {
        Some(t) => t,
        None => {
            return Err(ServerInfoError::InvalidServerTime(r.server_time_ms));
        },
    };
    Ok(
        ServerInfo {
            version: r.server_version,
            supported_protocol_versions: r.supported_protocol_versions,
            server_time,
            restricts_encodings: r.restricts_encodings,
            allowed_encodings: r.allowed_encodings,
            max_payload_size: r.max_payload_bytes,
            max_custom_entries: r.max_custom_entries,
            max_custom_total_bytes: r.max_custom_total_bytes,
            max_custom_key_bytes: r.max_custom_key_bytes,
            max_queue_name_bytes: r.max_queue_name_bytes,
            max_job_type_bytes: r.max_job_type_bytes,
            max_idempotency_key_bytes: r.max_idempotency_key_bytes,
            max_schedule_horizon_ms: r.max_schedule_horizon_ms,
            max_enqueue_batch: r.max_enqueue_batch,
            max_reserve_batch: r.max_reserve_batch,
            max_reserve_queues: r.max_reserve_queues,
            max_wait_timeout_ms: r.max_wait_timeout_ms,
            max_lease_duration_ms: r.max_lease_duration_ms,
            strict_queues: r.strict_queues,
        },
    )
}

/// Whether `res` is what decoding a response gives. Its time is read exactly
/// where the operating system can represent it.
pub open spec fn server_info_read(
    res: Result<ServerInfo, ServerInfoError>,
    r: pb::GetServerInfoResponse,
) -> bool {
    exists|server_time: Option<SystemTime>| #[trigger]
        time::is_time_of(r.server_time_ms, server_time) && is_server_info(res, r, server_time)
}

/// A response is decoded exactly where it has a version and the operating
/// system can represent its time.
pub proof fn server_info_read_succeeds(
    res: Result<ServerInfo, ServerInfoError>,
    r: pb::GetServerInfoResponse,
)
    requires
        server_info_read(res, r),
    ensures
        res is Ok <==> {
            &&& r.server_version@.len() > 0
            &&& r.server_time_ms >= 0 && time::can_hold(r.server_time_ms * 1_000_000)
        },
{
}

impl TryFrom<pb::GetServerInfoResponse> for ServerInfo {
    type Error = ServerInfoError;

    fn try_from(r: pb::GetServerInfoResponse) -> (res: Result<Self, ServerInfoError>)
        ensures
            server_info_read(res, r),
    {
        let server_time = millis_to_system_time(r.server_time_ms);
        assert(time::is_time_of(r.server_time_ms, server_time));
        server_info_with_time(r, server_time)
    }
}

impl vstd::std_specs::convert::TryFromSpecImpl<pb::GetServerInfoResponse> for ServerInfo {
    open spec fn obeys_try_from_spec() -> bool {
        false
    }

    open spec fn try_from_spec(r: pb::GetServerInfoResponse) -> Result<Self, ServerInfoError> {
        arbitrary()
    }
}

} // verus!
