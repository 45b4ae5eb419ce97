//! gRPC status codes, and what is read of a gRPC status.
use vstd::prelude::*;

verus! {

/// The status of a failed call.
#[verifier::external_type_specification]
#[verifier::external_body]
pub struct ExStatus(tonic::Status);

/// The number of what `tonic::Status::code` returns.
pub uninterp spec fn status_number(s: tonic::Status) -> i32;

/// What `tonic::Status::message` returns.
pub uninterp spec fn status_text(s: tonic::Status) -> Seq<char>;

/// `tonic::Status::message` returns the text of a status.
pub assume_specification[ tonic::Status::message ](s: &tonic::Status) -> (r: &str)
    ensures
        r@ == status_text(*s),
;

/// `tonic::Status::code` returns the code of a status, and `i32::from` its
/// number, which the protocol fixes between 0 and 16.
#[verifier::external_body]
pub(crate) fn code_number(s: &tonic::Status) -> (n: i32)
    ensures
        n == status_number(*s),
        0 <= n <= 16,
{
    i32::from(s.code())
}

/// A gRPC status code.
#[derive(Debug, Clone, Copy, PartialEq, Eq, Hash, Structural)]
pub enum Code {
    /// The operation completed successfully.
    Success,
    /// The operation was cancelled.
    Cancelled,
    /// Unknown error.
    Unknown,
    /// The caller specified an invalid argument.
    InvalidArgument,
    /// The deadline expired before the operation could complete.
    DeadlineExceeded,
    /// A requested entity was not found.
    NotFound,
    /// An entity to create already exists.
    AlreadyExists,
    /// The caller may not execute the operation.
    PermissionDenied,
    /// A resource has been exhausted.
    ResourceExhausted,
    /// The system is not in a state that the operation needs.
    FailedPrecondition,
    /// The operation was aborted.
    Aborted,
    /// The operation was attempted past the valid range.
    OutOfRange,
    /// The operation is not implemented.
    Unimplemented,
    /// Internal error.
    Internal,
    /// The service is unavailable.
    Unavailable,
    /// Data was lost or corrupted.
    DataLoss,
    /// The request has no valid credentials.
    Unauthenticated,
}

/// The code with the given number; `Unknown` for a number that no code has.
pub open spec fn code_of(n: int) -> Code {
    if n == 0 {
        Code::Success
    } else if n == 1 {
        Code::Cancelled
    } else if n == 3 {
        Code::InvalidArgument
    } else if n == 4 {
        Code::DeadlineExceeded
    } else if n == 5 {
        Code::NotFound
    } else if n == 6 {
        Code::AlreadyExists
    } else if n == 7 {
        Code::PermissionDenied
    } else if n == 8 {
        Code::ResourceExhausted
    } else if n == 9 {
        Code::FailedPrecondition
    } else if n == 10 {
        Code::Aborted
    } else if n == 11 {
        Code::OutOfRange
    } else if n == 12 {
        Code::Unimplemented
    } else if n == 13 {
        Code::Internal
    } else if n == 14 {
        Code::Unavailable
    } else if n == 15 {
        Code::DataLoss
    } else if n == 16 {
        Code::Unauthenticated
    } else {
        Code::Unknown
    }
}

impl Code {
    /// The name of the code.
    pub open spec fn name_spec(self) -> Seq<char> {
        match self {
            Code::Success => "Ok"@,
            Code::Cancelled => "Cancelled"@,
            Code::Unknown => "Unknown"@,
            Code::InvalidArgument => "InvalidArgument"@,
            Code::DeadlineExceeded => "DeadlineExceeded"@,
            Code::NotFound => "NotFound"@,
            Code::AlreadyExists => "AlreadyExists"@,
            Code::PermissionDenied => "PermissionDenied"@,
            Code::ResourceExhausted => "ResourceExhausted"@,
            Code::FailedPrecondition => "FailedPrecondition"@,
            Code::Aborted => "Aborted"@,
            Code::OutOfRange => "OutOfRange"@,
            Code::Unimplemented => "Unimplemented"@,
            Code::Internal => "Internal"@,
            Code::Unavailable => "Unavailable"@,
            Code::DataLoss => "DataLoss"@,
            Code::Unauthenticated => "Unauthenticated"@,
        }
    }

    /// Returns the name of the code.
    pub fn name(&self) -> (r: &'static str)
        ensures
            r@ == self.name_spec(),
    {
        match self {
            Code::Success => "Ok",
            Code::Cancelled => "Cancelled",
            Code::Unknown => "Unknown",
            Code::InvalidArgument => "InvalidArgument",
            Code::DeadlineExceeded => "DeadlineExceeded",
            Code::NotFound => "NotFound",
            Code::AlreadyExists => "AlreadyExists",
            Code::PermissionDenied => "PermissionDenied",
            Code::ResourceExhausted => "ResourceExhausted",
            Code::FailedPrecondition => "FailedPrecondition",
            Code::Aborted => "Aborted",
            Code::OutOfRange => "OutOfRange",
            Code::Unimplemented => "Unimplemented",
            Code::Internal => "Internal",
            Code::Unavailable => "Unavailable",
            Code::DataLoss => "DataLoss",
            Code::Unauthenticated => "Unauthenticated",
        }
    }

    /// The code with the given number; `Unknown` for a number that no code has.
    pub fn from_number(n: i32) -> (c: Code)
        ensures
            c == code_of(n as int),
    {
        match n {
            0 => Code::Success,
            1 => Code::Cancelled,
            3 => Code::InvalidArgument,
            4 => Code::DeadlineExceeded,
            5 => Code::NotFound,
            6 => Code::AlreadyExists,
            7 => Code::PermissionDenied,
            8 => Code::ResourceExhausted,
            9 => Code::FailedPrecondition,
            10 => Code::Aborted,
            11 => Code::OutOfRange,
            12 => Code::Unimplemented,
            13 => Code::Internal,
            14 => Code::Unavailable,
            15 => Code::DataLoss,
            16 => Code::Unauthenticated,
            _ => Code::Unknown,
        }
    }
}

/// The code of a status.
pub open spec fn status_code_spec(s: tonic::Status) -> Code {
    code_of(status_number(s) as int)
}

/// Returns the code of a status.
pub fn status_code(s: &tonic::Status) -> (c: Code)
    ensures
        c == status_code_spec(*s),
{
    Code::from_number(code_number(s))
}

} // verus!
