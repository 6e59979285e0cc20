//! The record that every error carries: a message for developers and a list
//! of details.

use crate::details::{debug_info_of, ErrorDetails, ErrorDetailsView};
use vstd::prelude::*;
use vstd::string::to_string_from_display_ensures;

verus! {

/// An error message together with the details of the error.
#[derive(Debug)]
pub struct ErrorStatus {
    /// A message for developers, in English.
    pub message: Option<String>,
    /// The details of the error, in the order in which they were added.
    pub details: Option<Vec<ErrorDetails>>,
}

/// What an [`ErrorStatus`] stands for.
pub struct ErrorStatusView {
    pub message: Option<Seq<char>>,
    pub details: Option<Seq<ErrorDetailsView>>,
}

impl ErrorStatusView {
    /// The status with no message and no details.
    pub open spec fn empty() -> ErrorStatusView {
        ErrorStatusView { message: None, details: None }
    }

    /// The details of the status; an absent list counts as an empty one.
    pub open spec fn detail_list(self) -> Seq<ErrorDetailsView> {
        match self.details {
            Some(details) => details,
            None => Seq::empty(),
        }
    }

    /// The status with `message` in place of its message.
    pub open spec fn with_message(self, message: Option<Seq<char>>) -> ErrorStatusView {
        ErrorStatusView { message, details: self.details }
    }

    /// The status with `details` added behind the details it has.
    pub open spec fn with_details(self, details: ErrorDetailsView) -> ErrorStatusView {
        ErrorStatusView { message: self.message, details: Some(self.detail_list().push(details)) }
    }
}

/// Adding a detail makes the list one longer and leaves every detail that
/// was there in its place: the new detail stands last.
pub proof fn details_are_only_added(status: ErrorStatusView, details: ErrorDetailsView)
    ensures
        status.with_details(details).message == status.message,
        status.with_details(details).detail_list().len() == status.detail_list().len() + 1,
        status.with_details(details).detail_list().last() == details,
        forall|i: int|
            0 <= i < status.detail_list().len() ==> status.with_details(details).detail_list()[i]
                == status.detail_list()[i],
{
}

/// Replacing the message leaves the details as they are.
pub proof fn message_leaves_details(status: ErrorStatusView, message: Option<Seq<char>>)
    ensures
        status.with_message(message).details == status.details,
        status.with_message(message).message == message,
{
}

impl View for ErrorStatus {
    type V = ErrorStatusView;

    open spec fn view(&self) -> ErrorStatusView {
        ErrorStatusView { message: self.message.deep_view(), details: self.details.deep_view() }
    }
}

impl DeepView for ErrorStatus {
    type V = ErrorStatusView;

    open spec fn deep_view(&self) -> ErrorStatusView {
        self@
    }
}

impl Clone for ErrorStatus {
    fn clone(&self) -> (copy: Self)
        ensures
            copy@ == self@,
    {
        ErrorStatus { message: self.message.clone(), details: self.details.clone() }
    }
}

impl Default for ErrorStatus {
    fn default() -> (status: Self)
        ensures
            status@ == ErrorStatusView::empty(),
    {
        ErrorStatus { message: None, details: None }
    }
}

impl ErrorStatus {
    /// Replaces the message and keeps the details.
    pub fn with_message(self, message: Option<String>) -> (status: ErrorStatus)
        ensures
            status@ == self@.with_message(message.deep_view()),
    {
        ErrorStatus { message, details: self.details }
    }

    /// Adds `details` behind the details that the status has. None of those
    /// is changed or removed.
    pub fn with_details(self, details: ErrorDetails) -> (status: ErrorStatus)
        ensures
            status@ == self@.with_details(details@),
    {
        let mut new_details = match self.details {
            Some(list) => list,
            None => Vec::new(),
        };
        let ghost before = new_details.deep_view();
        assert(before =~= self@.detail_list());
        new_details.push(details);
        assert(new_details.deep_view() =~= before.push(details@));
        ErrorStatus { message: self.message, details: Some(new_details) }
    }

    /// Adds a debugging detail that holds the text `error` is displayed as.
    pub fn with_error<E: core::fmt::Display>(self, error: E) -> (status: ErrorStatus)
        ensures
            exists|text: String|
                to_string_from_display_ensures::<E>(&error, text) && status@
                    == self@.with_details(debug_info_of(text@)),
    {
        let text = error.to_string();
        self.with_details(ErrorDetails::DebugInfo { stack_entries: None, detail: Some(text) })
    }
}

} // verus!
