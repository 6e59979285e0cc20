//! Errors as RPC statuses, and RPC statuses as errors.

use crate::error::{outcome_view, Error, ErrorView};
use crate::kind::ErrorKind;
use crate::status::{ErrorStatus, ErrorStatusView};
use vstd::prelude::*;
use vstd::std_specs::convert::{FromSpecImpl, TryFromSpecImpl};

verus! {

#[verifier::external_type_specification]
pub struct ExCode(tonic::Code);

#[verifier::external_type_specification]
#[verifier::external_body]
pub struct ExStatus(tonic::Status);

/// The code of an RPC status: what `tonic::Status::code` returns for it.
pub uninterp spec fn status_code(status: tonic::Status) -> tonic::Code;

/// The message of an RPC status: what `tonic::Status::message` returns for
/// it.
pub uninterp spec fn status_message(status: tonic::Status) -> Seq<char>;

/// `tonic::Status::code` returns the code of the status.
#[verifier::external_body]
fn code_of_status(status: &tonic::Status) -> (code: tonic::Code)
    ensures
        code == status_code(*status),
{
    status.code()
}

/// `tonic::Status::message` returns the message of the status.
#[verifier::external_body]
fn message_of_status(status: &tonic::Status) -> (message: &str)
    ensures
        message@ == status_message(*status),
{
    status.message()
}

/// `tonic::Status::new` makes a status that has the code and the message it
/// was given.
#[verifier::external_body]
pub(crate) fn new_status(code: tonic::Code, message: String) -> (status: tonic::Status)
    ensures
        status_code(status) == code,
        status_message(status) == message@,
{
    tonic::Status::new(code, message)
}

/// The RPC code that stands for an error kind.
pub open spec fn rpc_code(kind: ErrorKind) -> tonic::Code {
    match kind {
        ErrorKind::Cancelled => tonic::Code::Cancelled,
        ErrorKind::Unknown => tonic::Code::Unknown,
        ErrorKind::InvalidArgument => tonic::Code::InvalidArgument,
        ErrorKind::DeadlineExceeded => tonic::Code::DeadlineExceeded,
        ErrorKind::NotFound => tonic::Code::NotFound,
        ErrorKind::AlreadyExists => tonic::Code::AlreadyExists,
        ErrorKind::PermissionDenied => tonic::Code::PermissionDenied,
        ErrorKind::Unauthenticated => tonic::Code::Unauthenticated,
        ErrorKind::ResourceExhausted => tonic::Code::ResourceExhausted,
        ErrorKind::FailedPrecondition => tonic::Code::FailedPrecondition,
        ErrorKind::Aborted => tonic::Code::Aborted,
        ErrorKind::OutOfRange => tonic::Code::OutOfRange,
        ErrorKind::Unimplemented => tonic::Code::Unimplemented,
        ErrorKind::Internal => tonic::Code::Internal,
        ErrorKind::Unavailable => tonic::Code::Unavailable,
        ErrorKind::DataLoss => tonic::Code::DataLoss,
    }
}

/// The message of the RPC status that stands for an error with the status
/// `status`: its message, or the empty text where it has none.
pub open spec fn rpc_message(status: ErrorStatusView) -> Seq<char> {
    match status.message {
        Some(message) => message,
        None => Seq::empty(),
    }
}

/// What an RPC status with `code` and `message` is read as. The code of
/// success is no failure, so it is rejected, with an invalid-argument error.
/// Every other code gives the error of the kind that the code stands for,
/// with the message of the status and without details.
pub open spec fn error_of_status(code: tonic::Code, message: Seq<char>) -> Result<
    ErrorView,
    ErrorView,
> {
    match code {
        tonic::Code::Ok => Err(
            ErrorView::plain(
                ErrorKind::InvalidArgument,
                Some("Cannot convert OK status to Error"@),
            ),
        ),
        tonic::Code::Cancelled => Ok(ErrorView::plain(ErrorKind::Cancelled, Some(message))),
        tonic::Code::Unknown => Ok(ErrorView::plain(ErrorKind::Unknown, Some(message))),
        tonic::Code::InvalidArgument => Ok(ErrorView::plain(ErrorKind::InvalidArgument, Some(message))),
        tonic::Code::DeadlineExceeded => Ok(ErrorView::plain(ErrorKind::DeadlineExceeded, Some(message))),
        tonic::Code::NotFound => Ok(ErrorView::plain(ErrorKind::NotFound, Some(message))),
        tonic::Code::AlreadyExists => Ok(ErrorView::plain(ErrorKind::AlreadyExists, Some(message))),
        tonic::Code::PermissionDenied => Ok(ErrorView::plain(ErrorKind::PermissionDenied, Some(message))),
        tonic::Code::ResourceExhausted => Ok(ErrorView::plain(ErrorKind::ResourceExhausted, Some(message))),
        tonic::Code::FailedPrecondition => Ok(ErrorView::plain(ErrorKind::FailedPrecondition, Some(message))),
        tonic::Code::Aborted => Ok(ErrorView::plain(ErrorKind::Aborted, Some(message))),
        tonic::Code::OutOfRange => Ok(ErrorView::plain(ErrorKind::OutOfRange, Some(message))),
        tonic::Code::Unimplemented => Ok(ErrorView::plain(ErrorKind::Unimplemented, Some(message))),
        tonic::Code::Internal => Ok(ErrorView::plain(ErrorKind::Internal, Some(message))),
        tonic::Code::Unavailable => Ok(ErrorView::plain(ErrorKind::Unavailable, Some(message))),
        tonic::Code::DataLoss => Ok(ErrorView::plain(ErrorKind::DataLoss, Some(message))),
        tonic::Code::Unauthenticated => Ok(ErrorView::plain(ErrorKind::Unauthenticated, Some(message))),
    }
}

fn code_of_kind(kind: ErrorKind) -> (code: tonic::Code)
    ensures
        code == rpc_code(kind),
{
    match kind {
        ErrorKind::Cancelled => tonic::Code::Cancelled,
        ErrorKind::Unknown => tonic::Code::Unknown,
        ErrorKind::InvalidArgument => tonic::Code::InvalidArgument,
        ErrorKind::DeadlineExceeded => tonic::Code::DeadlineExceeded,
        ErrorKind::NotFound => tonic::Code::NotFound,
        ErrorKind::AlreadyExists => tonic::Code::AlreadyExists,
        ErrorKind::PermissionDenied => tonic::Code::PermissionDenied,
        ErrorKind::Unauthenticated => tonic::Code::Unauthenticated,
        ErrorKind::ResourceExhausted => tonic::Code::ResourceExhausted,
        ErrorKind::FailedPrecondition => tonic::Code::FailedPrecondition,
        ErrorKind::Aborted => tonic::Code::Aborted,
        ErrorKind::OutOfRange => tonic::Code::OutOfRange,
        ErrorKind::Unimplemented => tonic::Code::Unimplemented,
        ErrorKind::Internal => tonic::Code::Internal,
        ErrorKind::Unavailable => tonic::Code::Unavailable,
        ErrorKind::DataLoss => tonic::Code::DataLoss,
    }
}

impl From<Error> for tonic::Status {
    /// The RPC status that stands for `value`: the code of its kind and its
    /// message. The details are left behind.
    fn from(value: Error) -> (status: tonic::Status)
        ensures
            status_code(status) == rpc_code(value@.kind),
            status_message(status) == rpc_message(value@.status),
    {
        let code = code_of_kind(value.kind());
        let inner: ErrorStatus = ErrorStatus::from(value);
        let message = match inner.message {
            Some(message) => message,
            None => String::new(),
        };
        new_status(code, message)
    }
}

impl FromSpecImpl<Error> for tonic::Status {
    open spec fn obeys_from_spec() -> bool {
        false
    }

    open spec fn from_spec(value: Error) -> tonic::Status {
        arbitrary()
    }
}

impl TryFrom<tonic::Status> for Error {
    type Error = Error;

    /// Reads an RPC status as an error. A status of success is rejected.
    fn try_from(value: tonic::Status) -> (result: Result<Error, Error>)
        ensures
            outcome_view(result) == error_of_status(status_code(value), status_message(value)),
    {
        match code_of_status(&value) {
            tonic::Code::Ok => Err(
                Error::invalid_argument(Some("Cannot convert OK status to Error".to_owned())),
            ),
            tonic::Code::Cancelled => Ok(Error::cancelled(Some(message_of_status(&value).to_owned()))),
            tonic::Code::Unknown => Ok(Error::unknown(Some(message_of_status(&value).to_owned()))),
            tonic::Code::InvalidArgument => Ok(Error::invalid_argument(Some(message_of_status(&value).to_owned()))),
            tonic::Code::DeadlineExceeded => Ok(Error::deadline_exceeded(Some(message_of_status(&value).to_owned()))),
            tonic::Code::NotFound => Ok(Error::not_found(Some(message_of_status(&value).to_owned()))),
            tonic::Code::AlreadyExists => Ok(Error::already_exists(Some(message_of_status(&value).to_owned()))),
            tonic::Code::PermissionDenied => Ok(Error::permission_denied(Some(message_of_status(&value).to_owned()))),
            tonic::Code::ResourceExhausted => Ok(Error::resource_exhausted(Some(message_of_status(&value).to_owned()))),
            tonic::Code::FailedPrecondition => Ok(Error::failed_precondition(Some(message_of_status(&value).to_owned()))),
            tonic::Code::Aborted => Ok(Error::aborted(Some(message_of_status(&value).to_owned()))),
            tonic::Code::OutOfRange => Ok(Error::out_of_range(Some(message_of_status(&value).to_owned()))),
            tonic::Code::Unimplemented => Ok(Error::unimplemented(Some(message_of_status(&value).to_owned()))),
            tonic::Code::Internal => Ok(Error::internal(Some(message_of_status(&value).to_owned()))),
            tonic::Code::Unavailable => Ok(Error::unavailable(Some(message_of_status(&value).to_owned()))),
            tonic::Code::DataLoss => Ok(Error::data_loss(Some(message_of_status(&value).to_owned()))),
            tonic::Code::Unauthenticated => Ok(Error::unauthenticated(Some(message_of_status(&value).to_owned()))),
        }
    }
}

impl TryFromSpecImpl<tonic::Status> for Error {
    open spec fn obeys_try_from_spec() -> bool {
        false
    }

    open spec fn try_from_spec(value: tonic::Status) -> Result<Error, Error> {
        arbitrary()
    }
}

/// Two kinds with the same RPC code are the same kind, and no kind has the
/// code of success.
pub proof fn rpc_code_is_one_to_one(a: ErrorKind, b: ErrorKind)
    ensures
        rpc_code(a) == rpc_code(b) <==> a == b,
        rpc_code(a) != tonic::Code::Ok,
{
}

/// An error that is turned into an RPC status and read back is an error of
/// the same kind, with the message that the status had. The details do not
/// come back.
pub proof fn status_read_back_has_the_kind(error: ErrorView)
    ensures
        error_of_status(rpc_code(error.kind), rpc_message(error.status)) == Ok::<
            ErrorView,
            ErrorView,
        >(ErrorView::plain(error.kind, Some(rpc_message(error.status)))),
{
}

/// A status of success is read as no error of its own, whatever its message:
/// the reading fails with an invalid-argument error.
pub proof fn status_of_success_is_rejected(message: Seq<char>)
    ensures
        error_of_status(tonic::Code::Ok, message) matches Err(error) && error.kind
            == ErrorKind::InvalidArgument,
{
}

} // verus!
