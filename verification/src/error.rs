//! The error value: a kind together with the status that it carries.

use crate::details::{
    bad_request_of, debug_info_of, member_violation, ErrorDetails, FieldViolation,
    FieldViolationView,
};
use crate::field::Field;
use crate::kind::ErrorKind;
use crate::status::{ErrorStatus, ErrorStatusView};
use vstd::prelude::*;
use vstd::std_specs::convert::FromSpecImpl;
use vstd::string::to_string_from_display_ensures;

verus! {

/// A failure of one of sixteen kinds. Whatever the kind, the error carries
/// one [`ErrorStatus`].
#[derive(Debug)]
pub enum Error {
    /// The operation was cancelled, typically by the caller.
    Cancelled(ErrorStatus),
    /// An error of an unknown error space, or one about which too little is known.
    Unknown(ErrorStatus),
    /// The client gave an argument that is bad whatever the state of the system.
    InvalidArgument(ErrorStatus),
    /// The deadline passed before the operation could complete.
    DeadlineExceeded(ErrorStatus),
    /// A requested entity was not found.
    NotFound(ErrorStatus),
    /// The entity that the client tried to create exists already.
    AlreadyExists(ErrorStatus),
    /// The caller, who is known, may not execute the operation.
    PermissionDenied(ErrorStatus),
    /// The request has no valid authentication credentials.
    Unauthenticated(ErrorStatus),
    /// A resource has been exhausted, such as a quota or the space on disk.
    ResourceExhausted(ErrorStatus),
    /// The system is not in the state that the operation needs; retrying is of no use until the state is mended.
    FailedPrecondition(ErrorStatus),
    /// The operation was aborted, typically for a concurrency issue; the caller may retry at a higher level.
    Aborted(ErrorStatus),
    /// The operation was attempted past the valid range.
    OutOfRange(ErrorStatus),
    /// The operation is not implemented, supported or enabled.
    Unimplemented(ErrorStatus),
    /// An invariant that the system relies on is broken.
    Internal(ErrorStatus),
    /// The service is unavailable for now; the caller may retry the call.
    Unavailable(ErrorStatus),
    /// Data was lost or corrupted beyond recovery.
    DataLoss(ErrorStatus),
}

/// What an [`Error`] stands for.
pub struct ErrorView {
    pub kind: ErrorKind,
    pub status: ErrorStatusView,
}

impl ErrorView {
    /// The error of kind `kind` that carries `message` and no details.
    pub open spec fn plain(kind: ErrorKind, message: Option<Seq<char>>) -> ErrorView {
        ErrorView { kind, status: ErrorStatusView::empty().with_message(message) }
    }
}

/// What the outcome of reading an error stands for: the view of the error
/// that was read, or of the error that tells why none was.
pub open spec fn outcome_view(outcome: Result<Error, Error>) -> Result<ErrorView, ErrorView> {
    match outcome {
        Ok(error) => Ok(error@),
        Err(error) => Err(error@),
    }
}

impl View for Error {
    type V = ErrorView;

    open spec fn view(&self) -> ErrorView {
        ErrorView { kind: self.spec_kind(), status: self.status()@ }
    }
}

impl DeepView for Error {
    type V = ErrorView;

    open spec fn deep_view(&self) -> ErrorView {
        self@
    }
}

impl Clone for Error {
    fn clone(&self) -> (copy: Self)
        ensures
            copy@ == self@,
    {
        match self {
            Error::Cancelled(status) => Error::Cancelled(status.clone()),
            Error::Unknown(status) => Error::Unknown(status.clone()),
            Error::InvalidArgument(status) => Error::InvalidArgument(status.clone()),
            Error::DeadlineExceeded(status) => Error::DeadlineExceeded(status.clone()),
            Error::NotFound(status) => Error::NotFound(status.clone()),
            Error::AlreadyExists(status) => Error::AlreadyExists(status.clone()),
            Error::PermissionDenied(status) => Error::PermissionDenied(status.clone()),
            Error::Unauthenticated(status) => Error::Unauthenticated(status.clone()),
            Error::ResourceExhausted(status) => Error::ResourceExhausted(status.clone()),
            Error::FailedPrecondition(status) => Error::FailedPrecondition(status.clone()),
            Error::Aborted(status) => Error::Aborted(status.clone()),
            Error::OutOfRange(status) => Error::OutOfRange(status.clone()),
            Error::Unimplemented(status) => Error::Unimplemented(status.clone()),
            Error::Internal(status) => Error::Internal(status.clone()),
            Error::Unavailable(status) => Error::Unavailable(status.clone()),
            Error::DataLoss(status) => Error::DataLoss(status.clone()),
        }
    }
}

impl Error {
    /// The kind of the error.
    pub open spec fn spec_kind(&self) -> ErrorKind {
        match *self {
            Error::Cancelled(_) => ErrorKind::Cancelled,
            Error::Unknown(_) => ErrorKind::Unknown,
            Error::InvalidArgument(_) => ErrorKind::InvalidArgument,
            Error::DeadlineExceeded(_) => ErrorKind::DeadlineExceeded,
            Error::NotFound(_) => ErrorKind::NotFound,
            Error::AlreadyExists(_) => ErrorKind::AlreadyExists,
            Error::PermissionDenied(_) => ErrorKind::PermissionDenied,
            Error::Unauthenticated(_) => ErrorKind::Unauthenticated,
            Error::ResourceExhausted(_) => ErrorKind::ResourceExhausted,
            Error::FailedPrecondition(_) => ErrorKind::FailedPrecondition,
            Error::Aborted(_) => ErrorKind::Aborted,
            Error::OutOfRange(_) => ErrorKind::OutOfRange,
            Error::Unimplemented(_) => ErrorKind::Unimplemented,
            Error::Internal(_) => ErrorKind::Internal,
            Error::Unavailable(_) => ErrorKind::Unavailable,
            Error::DataLoss(_) => ErrorKind::DataLoss,
        }
    }

    /// The status that the error carries.
    pub open spec fn status(self) -> ErrorStatus {
        match self {
            Error::Cancelled(status) => status,
            Error::Unknown(status) => status,
            Error::InvalidArgument(status) => status,
            Error::DeadlineExceeded(status) => status,
            Error::NotFound(status) => status,
            Error::AlreadyExists(status) => status,
            Error::PermissionDenied(status) => status,
            Error::Unauthenticated(status) => status,
            Error::ResourceExhausted(status) => status,
            Error::FailedPrecondition(status) => status,
            Error::Aborted(status) => status,
            Error::OutOfRange(status) => status,
            Error::Unimplemented(status) => status,
            Error::Internal(status) => status,
            Error::Unavailable(status) => status,
            Error::DataLoss(status) => status,
        }
    }

    /// The kind of the error.
    #[verifier::when_used_as_spec(spec_kind)]
    pub fn kind(&self) -> (kind: ErrorKind)
        ensures
            kind == self.spec_kind(),
    {
        match self {
            Error::Cancelled(_) => ErrorKind::Cancelled,
            Error::Unknown(_) => ErrorKind::Unknown,
            Error::InvalidArgument(_) => ErrorKind::InvalidArgument,
            Error::DeadlineExceeded(_) => ErrorKind::DeadlineExceeded,
            Error::NotFound(_) => ErrorKind::NotFound,
            Error::AlreadyExists(_) => ErrorKind::AlreadyExists,
            Error::PermissionDenied(_) => ErrorKind::PermissionDenied,
            Error::Unauthenticated(_) => ErrorKind::Unauthenticated,
            Error::ResourceExhausted(_) => ErrorKind::ResourceExhausted,
            Error::FailedPrecondition(_) => ErrorKind::FailedPrecondition,
            Error::Aborted(_) => ErrorKind::Aborted,
            Error::OutOfRange(_) => ErrorKind::OutOfRange,
            Error::Unimplemented(_) => ErrorKind::Unimplemented,
            Error::Internal(_) => ErrorKind::Internal,
            Error::Unavailable(_) => ErrorKind::Unavailable,
            Error::DataLoss(_) => ErrorKind::DataLoss,
        }
    }

    /// The status that the error carries, whatever its kind.
    pub fn inner(&self) -> (status: &ErrorStatus)
        ensures
            *status == self.status(),
    {
        match self {
            Error::Internal(status) => status,
            Error::Unknown(status) => status,
            Error::Cancelled(status) => status,
            Error::InvalidArgument(status) => status,
            Error::DeadlineExceeded(status) => status,
            Error::NotFound(status) => status,
            Error::AlreadyExists(status) => status,
            Error::PermissionDenied(status) => status,
            Error::Unauthenticated(status) => status,
            Error::ResourceExhausted(status) => status,
            Error::FailedPrecondition(status) => status,
            Error::Aborted(status) => status,
            Error::OutOfRange(status) => status,
            Error::Unimplemented(status) => status,
            Error::Unavailable(status) => status,
            Error::DataLoss(status) => status,
        }
    }

    /// The numeric code of the error's kind, as the RPC wire format has it.
    pub fn code(&self) -> (code: i32)
        ensures
            code == self@.kind.code(),
    {
        self.kind().code()
    }

    /// The machine-readable name of the error's kind. The message is not
    /// part of it: read it from [`Error::inner`].
    pub fn to_string(&self) -> (text: String)
        ensures
            text@ == self@.kind.spec_name(),
    {
        self.kind().name().to_owned()
    }

    /// The error of kind [`ErrorKind::Cancelled`] with `message` and no details.
    pub fn cancelled(message: Option<String>) -> (error: Error)
        ensures
            error@ == ErrorView::plain(ErrorKind::Cancelled, message.deep_view()),
    {
        Error::Cancelled(ErrorStatus::default().with_message(message))
    }

    /// The error of kind [`ErrorKind::Unknown`] with `message` and no details.
    pub fn unknown(message: Option<String>) -> (error: Error)
        ensures
            error@ == ErrorView::plain(ErrorKind::Unknown, message.deep_view()),
    {
        Error::Unknown(ErrorStatus::default().with_message(message))
    }

    /// The error of kind [`ErrorKind::InvalidArgument`] with `message` and no details.
    pub fn invalid_argument(message: Option<String>) -> (error: Error)
        ensures
            error@ == ErrorView::plain(ErrorKind::InvalidArgument, message.deep_view()),
    {
        Error::InvalidArgument(ErrorStatus::default().with_message(message))
    }

    /// The invalid-argument error with `message` whose one detail reports
    /// the member `name` as bad, for the reason `description`.
    pub fn invalid_argument_field(
        message: Option<String>,
        name: String,
        description: Option<String>,
    ) -> (error: Error)
        ensures
            error@ == (ErrorView {
                kind: ErrorKind::InvalidArgument,
                status: ErrorStatusView::empty().with_message(message.deep_view()).with_details(
                    bad_request_of(member_violation(name@, description.deep_view())),
                ),
            }),
    {
        Error::InvalidArgument(
            ErrorStatus::default().with_message(message).with_details(
                ErrorDetails::bad_request(FieldViolation::for_member(name, description)),
            ),
        )
    }

    /// The invalid-argument error without a message whose one detail reports
    /// the member `name` as bad, for the reason `description`.
    pub fn invalid_argument_field_name(name: &str, description: &str) -> (error: Error)
        ensures
            error@ == (ErrorView {
                kind: ErrorKind::InvalidArgument,
                status: ErrorStatusView::empty().with_details(
                    bad_request_of(member_violation(name@, Some(description@))),
                ),
            }),
    {
        Error::InvalidArgument(
            ErrorStatus::default().with_details(
                ErrorDetails::bad_request(
                    FieldViolation::for_member(name.to_owned(), Some(description.to_owned())),
                ),
            ),
        )
    }

    /// The error of kind [`ErrorKind::DeadlineExceeded`] with `message` and no details.
    pub fn deadline_exceeded(message: Option<String>) -> (error: Error)
        ensures
            error@ == ErrorView::plain(ErrorKind::DeadlineExceeded, message.deep_view()),
    {
        Error::DeadlineExceeded(ErrorStatus::default().with_message(message))
    }

    /// The error of kind [`ErrorKind::NotFound`] with `message` and no details.
    pub fn not_found(message: Option<String>) -> (error: Error)
        ensures
            error@ == ErrorView::plain(ErrorKind::NotFound, message.deep_view()),
    {
        Error::NotFound(ErrorStatus::default().with_message(message))
    }

    /// The error of kind [`ErrorKind::AlreadyExists`] with `message` and no details.
    pub fn already_exists(message: Option<String>) -> (error: Error)
        ensures
            error@ == ErrorView::plain(ErrorKind::AlreadyExists, message.deep_view()),
    {
        Error::AlreadyExists(ErrorStatus::default().with_message(message))
    }

    /// The error of kind [`ErrorKind::PermissionDenied`] with `message` and no details.
    pub fn permission_denied(message: Option<String>) -> (error: Error)
        ensures
            error@ == ErrorView::plain(ErrorKind::PermissionDenied, message.deep_view()),
    {
        Error::PermissionDenied(ErrorStatus::default().with_message(message))
    }

    /// The error of kind [`ErrorKind::Unauthenticated`] with `message` and no details.
    pub fn unauthenticated(message: Option<String>) -> (error: Error)
        ensures
            error@ == ErrorView::plain(ErrorKind::Unauthenticated, message.deep_view()),
    {
        Error::Unauthenticated(ErrorStatus::default().with_message(message))
    }

    /// The error of kind [`ErrorKind::ResourceExhausted`] with `message` and no details.
    pub fn resource_exhausted(message: Option<String>) -> (error: Error)
        ensures
            error@ == ErrorView::plain(ErrorKind::ResourceExhausted, message.deep_view()),
    {
        Error::ResourceExhausted(ErrorStatus::default().with_message(message))
    }

    /// The error of kind [`ErrorKind::FailedPrecondition`] with `message` and no details.
    pub fn failed_precondition(message: Option<String>) -> (error: Error)
        ensures
            error@ == ErrorView::plain(ErrorKind::FailedPrecondition, message.deep_view()),
    {
        Error::FailedPrecondition(ErrorStatus::default().with_message(message))
    }

    /// The error of kind [`ErrorKind::Aborted`] with `message` and no details.
    pub fn aborted(message: Option<String>) -> (error: Error)
        ensures
            error@ == ErrorView::plain(ErrorKind::Aborted, message.deep_view()),
    {
        Error::Aborted(ErrorStatus::default().with_message(message))
    }

    /// The error of kind [`ErrorKind::OutOfRange`] with `message` and no details.
    pub fn out_of_range(message: Option<String>) -> (error: Error)
        ensures
            error@ == ErrorView::plain(ErrorKind::OutOfRange, message.deep_view()),
    {
        Error::OutOfRange(ErrorStatus::default().with_message(message))
    }

    /// The error of kind [`ErrorKind::Unimplemented`] with `message` and no details.
    pub fn unimplemented(message: Option<String>) -> (error: Error)
        ensures
            error@ == ErrorView::plain(ErrorKind::Unimplemented, message.deep_view()),
    {
        Error::Unimplemented(ErrorStatus::default().with_message(message))
    }

    /// The error of kind [`ErrorKind::Internal`] with `message` and no details.
    pub fn internal(message: Option<String>) -> (error: Error)
        ensures
            error@ == ErrorView::plain(ErrorKind::Internal, message.deep_view()),
    {
        Error::Internal(ErrorStatus::default().with_message(message))
    }

    /// The error of kind [`ErrorKind::Unavailable`] with `message` and no details.
    pub fn unavailable(message: Option<String>) -> (error: Error)
        ensures
            error@ == ErrorView::plain(ErrorKind::Unavailable, message.deep_view()),
    {
        Error::Unavailable(ErrorStatus::default().with_message(message))
    }

    /// The error of kind [`ErrorKind::DataLoss`] with `message` and no details.
    pub fn data_loss(message: Option<String>) -> (error: Error)
        ensures
            error@ == ErrorView::plain(ErrorKind::DataLoss, message.deep_view()),
    {
        Error::DataLoss(ErrorStatus::default().with_message(message))
    }

    /// Adds a debugging detail that holds the text `error` is displayed as.
    /// The kind, the message and the details that the error has stay.
    pub fn with_error<E: core::fmt::Display>(self, error: E) -> (result: Error)
        ensures
            exists|text: String|
                to_string_from_display_ensures::<E>(&error, text) && result@ == (ErrorView {
                    kind: self@.kind,
                    status: self@.status.with_details(debug_info_of(text@)),
                }),
    {
        match self {
            Error::Cancelled(details) => Error::Cancelled(details.with_error(error)),
            Error::Unknown(details) => Error::Unknown(details.with_error(error)),
            Error::InvalidArgument(details) => Error::InvalidArgument(details.with_error(error)),
            Error::DeadlineExceeded(details) => Error::DeadlineExceeded(details.with_error(error)),
            Error::NotFound(details) => Error::NotFound(details.with_error(error)),
            Error::AlreadyExists(details) => Error::AlreadyExists(details.with_error(error)),
            Error::PermissionDenied(details) => Error::PermissionDenied(details.with_error(error)),
            Error::Unauthenticated(details) => Error::Unauthenticated(details.with_error(error)),
            Error::ResourceExhausted(details) => Error::ResourceExhausted(details.with_error(error)),
            Error::FailedPrecondition(details) => Error::FailedPrecondition(details.with_error(error)),
            Error::Aborted(details) => Error::Aborted(details.with_error(error)),
            Error::OutOfRange(details) => Error::OutOfRange(details.with_error(error)),
            Error::Unimplemented(details) => Error::Unimplemented(details.with_error(error)),
            Error::Internal(details) => Error::Internal(details.with_error(error)),
            Error::Unavailable(details) => Error::Unavailable(details.with_error(error)),
            Error::DataLoss(details) => Error::DataLoss(details.with_error(error)),
        }
    }
}

impl Field {
    /// The invalid-argument error with `message` whose one detail reports
    /// the element at this path as bad, for the reason `description`.
    pub fn invalid_argument(self, message: &str, description: &str) -> (error: Error)
        ensures
            error@ == (ErrorView {
                kind: ErrorKind::InvalidArgument,
                status: ErrorStatusView::empty().with_message(Some(message@)).with_details(
                    bad_request_of(
                        FieldViolationView { field: self@, description: Some(description@) },
                    ),
                ),
            }),
    {
        let violation = FieldViolation { field: self, description: Some(description.to_owned()) };
        Error::InvalidArgument(
            ErrorStatus::default().with_message(Some(message.to_owned())).with_details(
                ErrorDetails::bad_request(violation),
            ),
        )
    }
}

impl From<Error> for ErrorStatus {
    /// Unwraps the status. Of which kind the error was is lost.
    fn from(value: Error) -> (status: ErrorStatus) {
        match value {
            Error::Internal(status) => status,
            Error::Unknown(status) => status,
            Error::Cancelled(status) => status,
            Error::InvalidArgument(status) => status,
            Error::DeadlineExceeded(status) => status,
            Error::NotFound(status) => status,
            Error::AlreadyExists(status) => status,
            Error::PermissionDenied(status) => status,
            Error::Unauthenticated(status) => status,
            Error::ResourceExhausted(status) => status,
            Error::FailedPrecondition(status) => status,
            Error::Aborted(status) => status,
            Error::OutOfRange(status) => status,
            Error::Unimplemented(status) => status,
            Error::Unavailable(status) => status,
            Error::DataLoss(status) => status,
        }
    }
}

impl FromSpecImpl<Error> for ErrorStatus {
    open spec fn obeys_from_spec() -> bool {
        true
    }

    open spec fn from_spec(value: Error) -> ErrorStatus {
        value.status()
    }
}

} // verus!
