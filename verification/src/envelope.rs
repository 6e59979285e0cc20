//! The outcome of an operation as foreign code receives it: a status, the
//! response bytes beside it, and the callback through which an outcome that
//! comes later is delivered.

use crate::code;
use crate::error::{Error, ErrorView};
use crate::ffi::{
    boundary_text, boundary_text_of, AppbioticCodeFfi_OwnedVec, AppbioticCodeFfi_String,
};
use crate::kind::ErrorKind;
use crate::status::ErrorStatus;
use vstd::prelude::*;
use vstd::std_specs::convert::FromSpecImpl;

verus! {

/// Whether an operation succeeded, and the message that goes with it.
#[derive(Debug)]
pub struct AppbioticCodeError_Status {
    /// 0 for success, else the numeric code of the error's kind.
    pub code: i32,
    pub message: AppbioticCodeFfi_String,
}

/// What an [`AppbioticCodeError_Status`] stands for.
pub struct StatusView {
    pub code: i32,
    pub message: Option<Seq<char>>,
}

impl StatusView {
    /// The status of success: the code 0 and no message.
    pub open spec fn ok() -> StatusView {
        StatusView { code: code::OK, message: None }
    }

    /// The status that stands for `error`: the code of its kind and, as far
    /// as the foreign side can be given it, its message. The kind's name and
    /// the details do not cross the boundary.
    pub open spec fn of_error(error: ErrorView) -> StatusView {
        StatusView { code: error.kind.code(), message: boundary_text_of(error.status.message) }
    }

    /// The status with `message` in place of its message.
    pub open spec fn with_message(self, message: Seq<char>) -> StatusView {
        StatusView { code: self.code, message: boundary_text(message) }
    }

    /// Whether the code is one of the seventeen that are defined: 0 for
    /// success or the code of an error kind.
    pub open spec fn has_defined_code(self) -> bool {
        0 <= self.code <= 16
    }
}

/// A code is defined exactly if it is the code of success or the code of an
/// error kind.
pub proof fn defined_codes_are_success_and_the_kinds(status: StatusView)
    ensures
        status.has_defined_code() <==> status.code == code::OK || ErrorKind::from_code(status.code)
            is Some,
{
}

/// The status that stands for an error never has the code of success, and
/// its code is defined.
pub proof fn status_of_error_is_a_failure(error: ErrorView)
    ensures
        StatusView::of_error(error).code != code::OK,
        StatusView::of_error(error).has_defined_code(),
        ErrorKind::from_code(StatusView::of_error(error).code) == Some(error.kind),
{
}

impl View for AppbioticCodeError_Status {
    type V = StatusView;

    open spec fn view(&self) -> StatusView {
        StatusView { code: self.code, message: self.message@ }
    }
}

impl AppbioticCodeError_Status {
    /// The status that is made of the error `value`.
    pub open spec fn of_error(value: Error) -> Self {
        AppbioticCodeError_Status {
            code: value@.kind.code(),
            message: match value.status().message {
                Some(text) => AppbioticCodeFfi_String::of_text(text),
                None => AppbioticCodeFfi_String::absent(),
            },
        }
    }

    /// The status of success.
    pub open spec fn success() -> Self {
        AppbioticCodeError_Status { code: code::OK, message: AppbioticCodeFfi_String::absent() }
    }

    /// The status of success.
    pub fn ok() -> (status: Self)
        ensures
            status == Self::success(),
            status@ == StatusView::ok(),
    {
        Self { code: code::OK, message: AppbioticCodeFfi_String::default() }
    }

    /// Replaces the message and keeps the code. The message is absent
    /// afterwards where `message` holds the terminator.
    pub fn with_message(self, message: &str) -> (status: Self)
        ensures
            status@ == self@.with_message(message@),
    {
        Self { code: self.code, message: AppbioticCodeFfi_String::from(message.to_owned()) }
    }
}

impl From<Error> for AppbioticCodeError_Status {
    /// The status that stands for the error `value`.
    fn from(value: Error) -> (status: Self)
        ensures
            status@ == StatusView::of_error(value@),
            status@.has_defined_code(),
            status@.code != code::OK,
    {
        let code = value.code();
        let inner: ErrorStatus = ErrorStatus::from(value);
        let message = match inner.message {
            Some(text) => AppbioticCodeFfi_String::from(text),
            None => AppbioticCodeFfi_String::default(),
        };
        Self { code, message }
    }
}

impl FromSpecImpl<Error> for AppbioticCodeError_Status {
    open spec fn obeys_from_spec() -> bool {
        true
    }

    open spec fn from_spec(value: Error) -> Self {
        Self::of_error(value)
    }
}

/// The outcome of an operation: the response, if there is one, and the
/// status.
#[derive(Debug)]
pub struct AppbioticCodeError_Result {
    /// The response of the operation.
    pub response: AppbioticCodeFfi_OwnedVec,
    /// Whether the operation succeeded.
    pub status: AppbioticCodeError_Status,
}

/// What an [`AppbioticCodeError_Result`] stands for.
pub struct ResultView {
    pub response: Option<Seq<u8>>,
    pub status: StatusView,
}

impl ResultView {
    /// The outcome of an operation that succeeded with the response `bytes`.
    pub open spec fn success(bytes: Seq<u8>) -> ResultView {
        ResultView { response: Some(bytes), status: StatusView::ok() }
    }

    /// The outcome of an operation that failed with `error`: no response,
    /// and the status that stands for the error.
    pub open spec fn failure(error: ErrorView) -> ResultView {
        ResultView { response: None, status: StatusView::of_error(error) }
    }

    /// The outcome with `message` in place of the status's message.
    pub open spec fn with_message(self, message: Seq<char>) -> ResultView {
        ResultView { response: self.response, status: self.status.with_message(message) }
    }
}

impl View for AppbioticCodeError_Result {
    type V = ResultView;

    open spec fn view(&self) -> ResultView {
        ResultView { response: self.response@, status: self.status@ }
    }
}

impl AppbioticCodeError_Result {
    /// Replaces the message of the status; the response and the code stay.
    pub fn with_message(self, message: &str) -> (result: Self)
        ensures
            result@ == self@.with_message(message@),
    {
        Self {
            response: self.response,
            status: AppbioticCodeError_Status {
                code: self.status.code,
                message: AppbioticCodeFfi_String::from(message.to_owned()),
            },
        }
    }
}

impl From<Vec<u8>> for AppbioticCodeError_Result {
    /// The outcome of an operation that succeeded with the response `value`.
    fn from(value: Vec<u8>) -> (result: Self)
        ensures
            result@ == ResultView::success(value@),
    {
        Self {
            response: AppbioticCodeFfi_OwnedVec::from(value),
            status: AppbioticCodeError_Status::ok(),
        }
    }
}

impl FromSpecImpl<Vec<u8>> for AppbioticCodeError_Result {
    open spec fn obeys_from_spec() -> bool {
        true
    }

    open spec fn from_spec(value: Vec<u8>) -> Self {
        AppbioticCodeError_Result {
            response: AppbioticCodeFfi_OwnedVec { data: Some(value) },
            status: AppbioticCodeError_Status::success(),
        }
    }
}

impl From<Error> for AppbioticCodeError_Result {
    /// The outcome of an operation that failed with the error `value`.
    fn from(value: Error) -> (result: Self)
        ensures
            result@ == ResultView::failure(value@),
    {
        Self {
            response: AppbioticCodeFfi_OwnedVec::default(),
            status: AppbioticCodeError_Status::from(value),
        }
    }
}

impl FromSpecImpl<Error> for AppbioticCodeError_Result {
    open spec fn obeys_from_spec() -> bool {
        true
    }

    open spec fn from_spec(value: Error) -> Self {
        AppbioticCodeError_Result {
            response: AppbioticCodeFfi_OwnedVec { data: None },
            status: AppbioticCodeError_Status::of_error(value),
        }
    }
}

/// The registration of a receiver for an outcome that comes later. The
/// receiver holds whatever context it needs, and it may run on another thread
/// than the one that registered it. Delivering the outcome uses the
/// registration up, so a receiver is called once at most.
pub struct AppbioticCodeError_ResultCallback<F: FnOnce(AppbioticCodeError_Result)> {
    on_result: F,
}

impl<F: FnOnce(AppbioticCodeError_Result)> AppbioticCodeError_ResultCallback<F> {
    /// The receiver that was registered.
    pub closed spec fn receiver(self) -> F {
        self.on_result
    }

    /// Registers `on_result` as the receiver of the outcome.
    pub fn new(on_result: F) -> (callback: Self)
        ensures
            callback.receiver() == on_result,
    {
        Self { on_result }
    }

    /// Delivers `message` to the receiver. The receiver is called with
    /// `message` itself, response bytes included, and owns it from then on:
    /// releasing it is the receiver's business.
    pub fn on_result(self, message: AppbioticCodeError_Result)
        requires
            call_requires(self.receiver(), (message,)),
        ensures
            call_ensures(self.receiver(), (message,), ()),
    {
        let receiver = self.on_result;
        receiver(message)
    }
}

/// An outcome that was made of response bytes and delivered through a
/// registration has reached the receiver that was registered, as an outcome
/// of success with those very bytes for its response.
pub proof fn delivery_hands_over_the_bytes<F: FnOnce(AppbioticCodeError_Result)>(
    receiver: F,
    callback: AppbioticCodeError_ResultCallback<F>,
    bytes: Seq<u8>,
    outcome: AppbioticCodeError_Result,
)
    requires
        callback.receiver() == receiver,
        outcome@ == ResultView::success(bytes),
        call_ensures(callback.receiver(), (outcome,), ()),
    ensures
        exists|received: AppbioticCodeError_Result|
            call_ensures(receiver, (received,), ()) && received@.response == Some(bytes)
                && received@.status == StatusView::ok(),
{
}

} // verus!
