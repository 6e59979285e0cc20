//! The closed set of error kinds and the fixed tables that go with it.

use crate::code;
use vstd::prelude::*;

verus! {

/// The class of a failure. Each kind has one numeric code, one name and one
/// HTTP status, none of which ever changes.
#[derive(Clone, Copy, Debug, PartialEq, Eq, Structural)]
pub enum ErrorKind {
    /// The operation was cancelled, typically by the caller.
    Cancelled,
    /// An error of an unknown error space, or one about which too little is known.
    Unknown,
    /// The client gave an argument that is bad whatever the state of the system.
    InvalidArgument,
    /// The deadline passed before the operation could complete.
    DeadlineExceeded,
    /// A requested entity was not found.
    NotFound,
    /// The entity that the client tried to create exists already.
    AlreadyExists,
    /// The caller, who is known, may not execute the operation.
    PermissionDenied,
    /// The request has no valid authentication credentials.
    Unauthenticated,
    /// A resource has been exhausted, such as a quota or the space on disk.
    ResourceExhausted,
    /// The system is not in the state that the operation needs; retrying is of no use until the state is mended.
    FailedPrecondition,
    /// The operation was aborted, typically for a concurrency issue; the caller may retry at a higher level.
    Aborted,
    /// The operation was attempted past the valid range.
    OutOfRange,
    /// The operation is not implemented, supported or enabled.
    Unimplemented,
    /// An invariant that the system relies on is broken.
    Internal,
    /// The service is unavailable for now; the caller may retry the call.
    Unavailable,
    /// Data was lost or corrupted beyond recovery.
    DataLoss,
}

impl ErrorKind {
    /// The numeric code of the kind.
    pub open spec fn spec_code(self) -> i32 {
        match self {
            ErrorKind::Cancelled => code::CANCELLED,
            ErrorKind::Unknown => code::UNKNOWN,
            ErrorKind::InvalidArgument => code::INVALID_ARGUMENT,
            ErrorKind::DeadlineExceeded => code::DEADLINE_EXCEEDED,
            ErrorKind::NotFound => code::NOT_FOUND,
            ErrorKind::AlreadyExists => code::ALREADY_EXISTS,
            ErrorKind::PermissionDenied => code::PERMISSION_DENIED,
            ErrorKind::Unauthenticated => code::UNAUTHENTICATED,
            ErrorKind::ResourceExhausted => code::RESOURCE_EXHAUSTED,
            ErrorKind::FailedPrecondition => code::FAILED_PRECONDITION,
            ErrorKind::Aborted => code::ABORTED,
            ErrorKind::OutOfRange => code::OUT_OF_RANGE,
            ErrorKind::Unimplemented => code::UNIMPLEMENTED,
            ErrorKind::Internal => code::INTERNAL,
            ErrorKind::Unavailable => code::UNAVAILABLE,
            ErrorKind::DataLoss => code::DATA_LOSS,
        }
    }

    /// The kind whose code is `code`, if there is one. The code 0 stands for
    /// success and belongs to no kind.
    pub open spec fn spec_from_code(code: i32) -> Option<ErrorKind> {
        if code == code::CANCELLED {
            Some(ErrorKind::Cancelled)
        } else if code == code::UNKNOWN {
            Some(ErrorKind::Unknown)
        } else if code == code::INVALID_ARGUMENT {
            Some(ErrorKind::InvalidArgument)
        } else if code == code::DEADLINE_EXCEEDED {
            Some(ErrorKind::DeadlineExceeded)
        } else if code == code::NOT_FOUND {
            Some(ErrorKind::NotFound)
        } else if code == code::ALREADY_EXISTS {
            Some(ErrorKind::AlreadyExists)
        } else if code == code::PERMISSION_DENIED {
            Some(ErrorKind::PermissionDenied)
        } else if code == code::UNAUTHENTICATED {
            Some(ErrorKind::Unauthenticated)
        } else if code == code::RESOURCE_EXHAUSTED {
            Some(ErrorKind::ResourceExhausted)
        } else if code == code::FAILED_PRECONDITION {
            Some(ErrorKind::FailedPrecondition)
        } else if code == code::ABORTED {
            Some(ErrorKind::Aborted)
        } else if code == code::OUT_OF_RANGE {
            Some(ErrorKind::OutOfRange)
        } else if code == code::UNIMPLEMENTED {
            Some(ErrorKind::Unimplemented)
        } else if code == code::INTERNAL {
            Some(ErrorKind::Internal)
        } else if code == code::UNAVAILABLE {
            Some(ErrorKind::Unavailable)
        } else if code == code::DATA_LOSS {
            Some(ErrorKind::DataLoss)
        } else {
            None
        }
    }

    /// The machine-readable name of the kind.
    pub open spec fn spec_name(self) -> Seq<char> {
        match self {
            ErrorKind::Cancelled => "CANCELLED"@,
            ErrorKind::Unknown => "UNKNOWN"@,
            ErrorKind::InvalidArgument => "INVALID_ARGUMENT"@,
            ErrorKind::DeadlineExceeded => "DEADLINE_EXCEEDED"@,
            ErrorKind::NotFound => "NOT_FOUND"@,
            ErrorKind::AlreadyExists => "ALREADY_EXISTS"@,
            ErrorKind::PermissionDenied => "PERMISSION_DENIED"@,
            ErrorKind::Unauthenticated => "UNAUTHENTICATED"@,
            ErrorKind::ResourceExhausted => "RESOURCE_EXHAUSTED"@,
            ErrorKind::FailedPrecondition => "FAILED_PRECONDITION"@,
            ErrorKind::Aborted => "ABORTED"@,
            ErrorKind::OutOfRange => "OUT_OF_RANGE"@,
            ErrorKind::Unimplemented => "UNIMPLEMENTED"@,
            ErrorKind::Internal => "INTERNAL"@,
            ErrorKind::Unavailable => "UNAVAILABLE"@,
            ErrorKind::DataLoss => "DATA_LOSS"@,
        }
    }

    /// The HTTP status that a response carries for an error of the kind.
    pub open spec fn spec_http_status(self) -> u16 {
        match self {
            ErrorKind::Cancelled => 499,
            ErrorKind::Unknown => 500,
            ErrorKind::InvalidArgument => 400,
            ErrorKind::DeadlineExceeded => 504,
            ErrorKind::NotFound => 404,
            ErrorKind::AlreadyExists => 409,
            ErrorKind::PermissionDenied => 403,
            ErrorKind::Unauthenticated => 401,
            ErrorKind::ResourceExhausted => 429,
            ErrorKind::FailedPrecondition => 400,
            ErrorKind::Aborted => 409,
            ErrorKind::OutOfRange => 400,
            ErrorKind::Unimplemented => 501,
            ErrorKind::Internal => 500,
            ErrorKind::Unavailable => 503,
            ErrorKind::DataLoss => 500,
        }
    }

    /// The numeric code of the kind, as the RPC wire format has it.
    #[verifier::when_used_as_spec(spec_code)]
    pub fn code(self) -> (code: i32)
        ensures
            code == self.spec_code(),
    {
        match self {
            ErrorKind::Cancelled => code::CANCELLED,
            ErrorKind::Unknown => code::UNKNOWN,
            ErrorKind::InvalidArgument => code::INVALID_ARGUMENT,
            ErrorKind::DeadlineExceeded => code::DEADLINE_EXCEEDED,
            ErrorKind::NotFound => code::NOT_FOUND,
            ErrorKind::AlreadyExists => code::ALREADY_EXISTS,
            ErrorKind::PermissionDenied => code::PERMISSION_DENIED,
            ErrorKind::Unauthenticated => code::UNAUTHENTICATED,
            ErrorKind::ResourceExhausted => code::RESOURCE_EXHAUSTED,
            ErrorKind::FailedPrecondition => code::FAILED_PRECONDITION,
            ErrorKind::Aborted => code::ABORTED,
            ErrorKind::OutOfRange => code::OUT_OF_RANGE,
            ErrorKind::Unimplemented => code::UNIMPLEMENTED,
            ErrorKind::Internal => code::INTERNAL,
            ErrorKind::Unavailable => code::UNAVAILABLE,
            ErrorKind::DataLoss => code::DATA_LOSS,
        }
    }

    /// The kind whose code is `code`; `None` for 0 and for every number that
    /// is the code of no kind.
    #[verifier::when_used_as_spec(spec_from_code)]
    pub fn from_code(code: i32) -> (kind: Option<ErrorKind>)
        ensures
            kind == Self::spec_from_code(code),
    {
        if code == code::CANCELLED {
            Some(ErrorKind::Cancelled)
        } else if code == code::UNKNOWN {
            Some(ErrorKind::Unknown)
        } else if code == code::INVALID_ARGUMENT {
            Some(ErrorKind::InvalidArgument)
        } else if code == code::DEADLINE_EXCEEDED {
            Some(ErrorKind::DeadlineExceeded)
        } else if code == code::NOT_FOUND {
            Some(ErrorKind::NotFound)
        } else if code == code::ALREADY_EXISTS {
            Some(ErrorKind::AlreadyExists)
        } else if code == code::PERMISSION_DENIED {
            Some(ErrorKind::PermissionDenied)
        } else if code == code::UNAUTHENTICATED {
            Some(ErrorKind::Unauthenticated)
        } else if code == code::RESOURCE_EXHAUSTED {
            Some(ErrorKind::ResourceExhausted)
        } else if code == code::FAILED_PRECONDITION {
            Some(ErrorKind::FailedPrecondition)
        } else if code == code::ABORTED {
            Some(ErrorKind::Aborted)
        } else if code == code::OUT_OF_RANGE {
            Some(ErrorKind::OutOfRange)
        } else if code == code::UNIMPLEMENTED {
            Some(ErrorKind::Unimplemented)
        } else if code == code::INTERNAL {
            Some(ErrorKind::Internal)
        } else if code == code::UNAVAILABLE {
            Some(ErrorKind::Unavailable)
        } else if code == code::DATA_LOSS {
            Some(ErrorKind::DataLoss)
        } else {
            None
        }
    }

    /// The machine-readable name of the kind.
    pub fn name(self) -> (name: &'static str)
        ensures
            name@ == self.spec_name(),
    {
        match self {
            ErrorKind::Cancelled => "CANCELLED",
            ErrorKind::Unknown => "UNKNOWN",
            ErrorKind::InvalidArgument => "INVALID_ARGUMENT",
            ErrorKind::DeadlineExceeded => "DEADLINE_EXCEEDED",
            ErrorKind::NotFound => "NOT_FOUND",
            ErrorKind::AlreadyExists => "ALREADY_EXISTS",
            ErrorKind::PermissionDenied => "PERMISSION_DENIED",
            ErrorKind::Unauthenticated => "UNAUTHENTICATED",
            ErrorKind::ResourceExhausted => "RESOURCE_EXHAUSTED",
            ErrorKind::FailedPrecondition => "FAILED_PRECONDITION",
            ErrorKind::Aborted => "ABORTED",
            ErrorKind::OutOfRange => "OUT_OF_RANGE",
            ErrorKind::Unimplemented => "UNIMPLEMENTED",
            ErrorKind::Internal => "INTERNAL",
            ErrorKind::Unavailable => "UNAVAILABLE",
            ErrorKind::DataLoss => "DATA_LOSS",
        }
    }

    /// The HTTP status that a response carries for an error of the kind.
    #[verifier::when_used_as_spec(spec_http_status)]
    pub fn http_status(self) -> (status: u16)
        ensures
            status == self.spec_http_status(),
    {
        match self {
            ErrorKind::Cancelled => 499,
            ErrorKind::Unknown => 500,
            ErrorKind::InvalidArgument => 400,
            ErrorKind::DeadlineExceeded => 504,
            ErrorKind::NotFound => 404,
            ErrorKind::AlreadyExists => 409,
            ErrorKind::PermissionDenied => 403,
            ErrorKind::Unauthenticated => 401,
            ErrorKind::ResourceExhausted => 429,
            ErrorKind::FailedPrecondition => 400,
            ErrorKind::Aborted => 409,
            ErrorKind::OutOfRange => 400,
            ErrorKind::Unimplemented => 501,
            ErrorKind::Internal => 500,
            ErrorKind::Unavailable => 503,
            ErrorKind::DataLoss => 500,
        }
    }
}

/// The codes of the kinds are the numbers from 1 to 16, and two kinds with
/// the same code are the same kind.
pub proof fn code_is_one_to_one(a: ErrorKind, b: ErrorKind)
    ensures
        1 <= a.code() <= 16,
        a.code() == b.code() <==> a == b,
{
}

/// Every number from 1 to 16 is the code of a kind.
pub proof fn code_is_onto(code: i32)
    requires
        1 <= code <= 16,
    ensures
        exists|kind: ErrorKind| kind.code() == code,
{
    let kind = ErrorKind::from_code(code)->0;
    assert(kind.code() == code);
}

/// Reading a kind back from its code gives the kind.
pub proof fn from_code_recovers_kind(kind: ErrorKind)
    ensures
        ErrorKind::from_code(kind.code()) == Some(kind),
{
}

/// A number is read as a kind exactly if it lies between 1 and 16, and the
/// kind it is read as has that number for its code. In particular 0, the code
/// of success, is read as no kind.
pub proof fn from_code_is_inverse_of_code(code: i32)
    ensures
        ErrorKind::from_code(code) is Some <==> 1 <= code <= 16,
        ErrorKind::from_code(code) matches Some(kind) ==> kind.code() == code,
        ErrorKind::from_code(code::OK) is None,
{
}

/// No kind is answered with an HTTP status of success: the status of every
/// kind is a client error (400 to 499) or a server error (500 to 599).
pub proof fn http_status_is_an_error(kind: ErrorKind)
    ensures
        400 <= kind.http_status() <= 599,
{
}

} // verus!
