//! What errors say.
use vstd::prelude::*;

use crate::client::{ClientError, EnqueueError, LeaseError, ReserveError};
use crate::job::{JobConversionError, JobCtx};
use crate::payload_converter::ConverterError;
use crate::primitive::PriorityOutOfRange;
use crate::request::{
    AtomicEnqueueError, EnqueueRequestBuilderError, JobRejection, JobValidationError,
};
use crate::reserve::ReserveOptionsError;
use crate::server_info::ServerInfoError;
use crate::status::Code;
use crate::text;
use crate::time;
use crate::trace::TraceContextError;
use crate::worker::{HandlerError, WorkerBuilderError};

verus! {

/// An error that wraps another says what that one says: as it is where it only
/// hands it on, and after what it adds where it adds something.
pub proof fn a_wrapped_error_says_what_is_inside(
    c: ClientError,
    client: String,
    q: String,
    a: String,
    l: String,
    r: String,
    o: ReserveOptionsError,
    options: String,
    w: String,
    j: JobRejection,
    rejection: String,
    rejected: String,
    d: JobConversionError,
    decoding: String,
    malformed: String,
    i: ServerInfoError,
    info: String,
    unread: String,
)
    requires
        call_ensures(ClientError::to_string, (&c,), client),
        call_ensures(EnqueueError::to_string, (&EnqueueError::Client(c),), q),
        call_ensures(AtomicEnqueueError::to_string, (&AtomicEnqueueError::Client(c),), a),
        call_ensures(LeaseError::to_string, (&LeaseError::Client(c),), l),
        call_ensures(ReserveError::to_string, (&ReserveError::Client(c),), r),
        call_ensures(ReserveOptionsError::to_string, (&o,), options),
        call_ensures(WorkerBuilderError::to_string, (&WorkerBuilderError::ReserveOptions(o),), w),
        call_ensures(JobRejection::to_string, (&j,), rejection),
        call_ensures(EnqueueError::to_string, (&EnqueueError::Rejected(j),), rejected),
        call_ensures(JobConversionError::to_string, (&d,), decoding),
        call_ensures(ClientError::to_string, (&ClientError::MalformedJob(d),), malformed),
        call_ensures(ServerInfoError::to_string, (&i,), info),
        call_ensures(ClientError::to_string, (&ClientError::MalformedServerInfo(i),), unread),
    ensures
        q@ == client@,
        a@ == client@,
        l@ == client@,
        r@ == client@,
        w@ == options@,
        rejected@ == "server rejected the job: "@ + rejection@,
        malformed@ == "server returned a malformed job: "@ + decoding@,
        unread@ == "server returned malformed server info: "@ + info@,
{
}

/// The errors of single calls say what the server said, or what is lost.
pub proof fn the_error_of_a_call_says_what_it_means(
    m: String,
    queues: String,
    gone: String,
    moved: String,
    t: String,
    duplicate: String,
    errors: Vec<JobValidationError>,
    refused: String,
)
    requires
        call_ensures(ReserveError::to_string, (&ReserveError::UnknownQueues(m),), queues),
        call_ensures(LeaseError::to_string, (&LeaseError::JobNotFound,), gone),
        call_ensures(LeaseError::to_string, (&LeaseError::AttemptMismatch,), moved),
        call_ensures(
            WorkerBuilderError::to_string,
            (&WorkerBuilderError::DuplicateHandler(t),),
            duplicate,
        ),
        call_ensures(
            AtomicEnqueueError::to_string,
            (&AtomicEnqueueError::Validation(errors),),
            refused,
        ),
    ensures
        queues@ == "requested queues are not declared on the server: "@ + m@,
        gone@ == "no in-flight job with this id (already acked, expired, or never existed)"@,
        moved@ == "attempt mismatch: the lease was reassigned"@,
        duplicate@ == "handler for job_type "@ + text::str_debug(t@) + " is already registered"@,
        refused@ == "atomic batch rejected: "@ + text::decimal(errors@.len())
            + " job(s) failed validation"@,
{
}

/// A code is named as the protocol names it.
pub proof fn a_code_has_its_name(c: Code, s: &'static str)
    requires
        call_ensures(Code::name, (&c,), s),
    ensures
        s@ == c.name_spec(),
        c is Success ==> s@ == "Ok"@,
        c is Cancelled ==> s@ == "Cancelled"@,
        c is Unknown ==> s@ == "Unknown"@,
        c is InvalidArgument ==> s@ == "InvalidArgument"@,
        c is DeadlineExceeded ==> s@ == "DeadlineExceeded"@,
        c is NotFound ==> s@ == "NotFound"@,
        c is AlreadyExists ==> s@ == "AlreadyExists"@,
        c is PermissionDenied ==> s@ == "PermissionDenied"@,
        c is ResourceExhausted ==> s@ == "ResourceExhausted"@,
        c is FailedPrecondition ==> s@ == "FailedPrecondition"@,
        c is Aborted ==> s@ == "Aborted"@,
        c is OutOfRange ==> s@ == "OutOfRange"@,
        c is Unimplemented ==> s@ == "Unimplemented"@,
        c is Internal ==> s@ == "Internal"@,
        c is Unavailable ==> s@ == "Unavailable"@,
        c is DataLoss ==> s@ == "DataLoss"@,
        c is Unauthenticated ==> s@ == "Unauthenticated"@,
{
}

/// A list is quoted item by item: between brackets, with a comma and a space
/// between each two.
pub proof fn a_list_is_quoted_item_by_item(items: Vec<String>, s: String)
    requires
        call_ensures(text::debug_strings, (&items,), s),
    ensures
        items@.len() == 0 ==> s@ == "["@ + "]"@,
        items@.len() == 1 ==> s@ == "["@ + text::str_debug(items@[0]@) + "]"@,
        items@.len() > 1 ==> s@ == "["@ + text::debug_items(
            text::texts(items@.drop_last()),
        ) + ", "@ + text::str_debug(items@.last()@) + "]"@,
{
    let all = text::texts(items@);
    if items@.len() > 1 {
        assert(all.drop_last() =~= text::texts(items@.drop_last()));
        assert(all.last() == items@.last()@);
        assert(s@ =~= "["@ + text::debug_items(text::texts(items@.drop_last())) + ", "@
            + text::str_debug(items@.last()@) + "]"@);
    } else if items@.len() == 1 {
        assert(all[0] == items@[0]@);
    } else {
        assert(s@ =~= "["@ + "]"@);
    }
}

/// A rejection names what was refused, then how much of it there was, then the limit
/// that it is held against.
pub proof fn a_rejection_says_what_was_measured_and_the_limit(e: JobRejection, s: String)
    requires
        call_ensures(JobRejection::to_string, (&e,), s),
    ensures
        e matches JobRejection::UnknownQueue { queue } ==> s@ == "queue "@
            + text::str_debug(queue@) + " is not declared on the server (strict mode)"@,
        e matches JobRejection::PayloadTooLarge { limit, actual } ==> s@ == "payload size "@
            + text::decimal(actual as nat) + " bytes exceeds the queue limit of "@
            + text::decimal(limit as nat),
        e matches JobRejection::EncodingNotAllowed { encoding, allowed }
            ==> s@ == "payload encoding "@ + text::str_debug(encoding@)
            + " is not allowed; accepted: "@ + text::debug_list(text::texts(allowed@)),
        e matches JobRejection::JobTypeNotAllowed { job_type, allowed } ==> s@ == "job_type "@
            + text::str_debug(job_type@) + " is not accepted by this queue; accepted: "@
            + text::debug_list(text::texts(allowed@)),
        e matches JobRejection::CustomEntriesTooMany { limit, actual }
            ==> s@ == "custom map has "@ + text::decimal(actual as nat)
            + " entries, exceeding the queue limit of "@ + text::decimal(limit as nat),
        e matches JobRejection::CustomMapTooLarge { limit, actual }
            ==> s@ == "custom map's total size "@ + text::decimal(actual as nat)
            + " bytes exceeds the queue limit of "@ + text::decimal(limit as nat),
        e matches JobRejection::CustomKeyTooLong { key, limit, actual } ==> s@ == "custom key "@
            + text::str_debug(key@) + " is "@ + text::decimal(actual as nat)
            + " bytes, exceeding the limit of "@ + text::decimal(limit as nat),
        e matches JobRejection::QueueNameTooLong { limit, actual } ==> s@ == "queue name is "@
            + text::decimal(actual as nat) + " bytes, exceeding the limit of "@
            + text::decimal(limit as nat),
        e matches JobRejection::JobTypeNameTooLong { limit, actual } ==> s@ == "job_type is "@
            + text::decimal(actual as nat) + " bytes, exceeding the limit of "@
            + text::decimal(limit as nat),
        e matches JobRejection::IdempotencyKeyTooLong { limit, actual }
            ==> s@ == "idempotency_key is "@ + text::decimal(actual as nat)
            + " bytes, exceeding the limit of "@ + text::decimal(limit as nat),
        e matches JobRejection::ScheduledTooFar { horizon_ms, actual_ms }
            ==> s@ == "scheduled_at "@ + text::signed_decimal(actual_ms as int)
            + "ms is beyond max_schedule_horizon_ms ("@ + text::decimal(horizon_ms as nat) + "ms)"@,
        e matches JobRejection::InvalidRequest { message }
            ==> s@ == "structural validation failed: "@ + message@,
        e is Unknown ==> s@ == "server returned an unrecognized rejection variant"@,
{
}

/// A client error says what kind of failure it was and what the server said of it.
pub proof fn a_client_error_says_what_the_server_said(e: ClientError, s: String)
    requires
        call_ensures(ClientError::to_string, (&e,), s),
    ensures
        e matches ClientError::Connect { addr, reason }
            ==> s@ == "could not connect to Sepp server at "@ + addr@ + ": "@ + reason@,
        e is InvalidApiKey ==> s@ == "the API key is not a valid HTTP header value"@,
        e matches ClientError::Transport(m) ==> s@ == "transport failure: "@ + m@,
        e matches ClientError::Unauthenticated(m) ==> s@ == "authentication failed: "@ + m@,
        e matches ClientError::Overloaded(m) ==> s@ == "server is overloaded: "@ + m@,
        e matches ClientError::InvalidRequest(m) ==> s@ == "invalid request: "@ + m@,
        e matches ClientError::ServerInternal(m) ==> s@ == "server internal error: "@ + m@,
        e matches ClientError::UnexpectedStatus { code, message }
            ==> s@ == "server returned unexpected status "@ + code.name_spec() + ": "@ + message@,
        e is EmptyBatch ==> s@ == "empty batch"@,
        e matches ClientError::BatchResultCountMismatch { expected, got }
            ==> s@ == "server returned "@ + text::decimal(got as nat)
            + " results for a batch of "@ + text::decimal(expected as nat) + " jobs"@,
        e matches ClientError::MalformedResponse(m) ==> s@ == "malformed response: "@ + m@,
{
}

/// A job that could not be decoded says which field is wrong, and how.
pub proof fn a_malformed_job_says_what_is_wrong_with_it(e: JobConversionError, s: String)
    requires
        call_ensures(JobConversionError::to_string, (&e,), s),
    ensures
        e matches JobConversionError::MissingField(f)
            ==> s@ == "job is missing required field `"@ + f@ + "`"@,
        e matches JobConversionError::PriorityOutOfRange(p) ==> s@ == "job priority "@
            + text::decimal(p as nat) + " is out of range (expected 0-9)"@,
        e matches JobConversionError::InvalidTimestamp { field, value }
            ==> s@ == "job timestamp `"@ + field@ + "` is not a representable time ("@
            + text::signed_decimal(value as int) + "ms)"@,
        e matches JobConversionError::EmptyCustomValue(k) ==> s@ == "custom value for key `"@
            + k@ + "` has no value set"@,
{
}

/// Server info that could not be decoded says which field is wrong, and how.
pub proof fn malformed_server_info_says_what_is_wrong_with_it(e: ServerInfoError, s: String)
    requires
        call_ensures(ServerInfoError::to_string, (&e,), s),
    ensures
        e matches ServerInfoError::MissingField(f)
            ==> s@ == "server info is missing required field `"@ + f@ + "`"@,
        e matches ServerInfoError::InvalidServerTime(ms)
            ==> s@ == "server_time_ms is not a representable time ("@
            + text::signed_decimal(ms as int) + "ms)"@,
{
}

/// Refused reserve options say what is wrong with them.
pub proof fn refused_reserve_options_say_what_is_wrong_with_them(e: ReserveOptionsError, s: String)
    requires
        call_ensures(ReserveOptionsError::to_string, (&e,), s),
    ensures
        e is EmptyQueues ==> s@ == "at least one queue must be specified"@,
        e matches ReserveOptionsError::EmptyQueueName(i) ==> s@ == "queue name at index "@
            + text::decimal(i as nat) + " must not be empty"@,
        e is LeaseDurationTooShort ==> s@ == "lease_duration must be at least 1ms"@,
        e is EmptyWorkerId ==> s@ == "worker_id must not be empty when set"@,
{
}

/// A refused request says what is empty.
pub proof fn a_refused_request_says_what_is_empty(e: EnqueueRequestBuilderError, s: String)
    requires
        call_ensures(EnqueueRequestBuilderError::to_string, (&e,), s),
    ensures
        e is EmptyQueue ==> s@ == "queue name must not be empty"@,
        e is EmptyJobType ==> s@ == "job type must not be empty"@,
{
}

/// A refused priority says its number.
pub proof fn a_refused_priority_says_its_number(e: PriorityOutOfRange, s: String)
    requires
        call_ensures(PriorityOutOfRange::to_string, (&e,), s),
    ensures
        s@ == "priority must be 0-9, got "@ + text::decimal(e.0 as nat),
{
}

/// A refused `traceparent` says why.
pub proof fn a_refused_traceparent_says_why(e: TraceContextError, s: String)
    requires
        call_ensures(TraceContextError::to_string, (&e,), s),
    ensures
        e matches TraceContextError::InvalidTraceparent(why) ==> s@ == "invalid traceparent: "@
            + why@,
{
}

/// A converter that failed says which way, and why.
pub proof fn a_converter_says_why_it_failed(e: ConverterError, s: String)
    requires
        call_ensures(ConverterError::to_string, (&e,), s),
    ensures
        e matches ConverterError::Encode(why) ==> s@ == "encode failed: "@ + why@,
        e matches ConverterError::Decode(why) ==> s@ == "decode failed: "@ + why@,
{
}

/// The error of a handler says what it asks for, and why.
pub proof fn a_handler_says_what_it_asks_for(e: HandlerError, s: String)
    requires
        call_ensures(HandlerError::to_string, (&e,), s),
    ensures
        e matches HandlerError::Retry(why) ==> s@ == "retry: "@ + why@,
        e matches HandlerError::RetryAfter(why, d) ==> s@ == "retry after "@
            + text::duration_debug(time::duration_nanos(d)) + ": "@ + why@,
        e matches HandlerError::Permanent(why) ==> s@ == "permanent: "@ + why@,
{
}

/// A job says its id, its type, which attempt of how many it is, and its priority.
pub proof fn a_job_says_which_it_is(e: JobCtx, s: String)
    requires
        call_ensures(JobCtx::to_string, (&e,), s),
    ensures
        s@ == "JobCtx { id: "@ + e.id@ + ", job_type: "@ + e.job_type@ + ", attempt: "@
            + text::decimal(e.attempt as nat) + "/"@ + text::decimal(e.max_attempts as nat)
            + ", priority: "@ + text::decimal(e.priority@ as nat) + " }"@,
{
}

} // verus!
