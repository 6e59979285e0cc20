//! The structured records that a status carries beside its message.

use crate::field::{Field, Property, PropertyView};
use vstd::prelude::*;

verus! {

/// One field of a request that was found to be bad.
#[derive(Debug)]
pub struct FieldViolation {
    /// Where the bad element stands in the request.
    pub field: Field,
    /// Why the element is bad.
    pub description: Option<String>,
}

/// What a [`FieldViolation`] stands for.
pub struct FieldViolationView {
    /// The path to the bad element, outermost property first.
    pub field: Seq<PropertyView>,
    pub description: Option<Seq<char>>,
}

impl View for FieldViolation {
    type V = FieldViolationView;

    open spec fn view(&self) -> FieldViolationView {
        FieldViolationView { field: self.field@, description: self.description.deep_view() }
    }
}

impl DeepView for FieldViolation {
    type V = FieldViolationView;

    open spec fn deep_view(&self) -> FieldViolationView {
        self@
    }
}

impl Clone for FieldViolation {
    fn clone(&self) -> (copy: Self)
        ensures
            copy@ == self@,
    {
        FieldViolation { field: self.field.clone(), description: self.description.clone() }
    }
}

/// The violation of the single member `name`.
pub open spec fn member_violation(
    name: Seq<char>,
    description: Option<Seq<char>>,
) -> FieldViolationView {
    FieldViolationView { field: seq![PropertyView::Member { name }], description }
}

impl FieldViolation {
    /// The violation of the top-level member `name`.
    pub fn for_member(name: String, description: Option<String>) -> (violation: FieldViolation)
        ensures
            violation@ == member_violation(name@, description.deep_view()),
    {
        FieldViolation { field: Field::new(Property::Member { name }), description }
    }
}

/// A detail that may be forwarded to the end user together with an error.
#[derive(Debug)]
pub enum ErrorDetails {
    /// Violations in a client request, on its syntactic side.
    BadRequest {
        field_violations: Vec<FieldViolation>,
    },
    /// Additional debugging information.
    DebugInfo {
        /// The stack trace entries that show where the error occurred.
        stack_entries: Option<Vec<String>>,
        /// Additional information given by the server.
        detail: Option<String>,
    },
    /// An error message in the user's language, safe to show to the user.
    LocalizedMessage {
        /// The BCP-47 tag of the language, such as "en-US" or "fr-CH".
        locale: String,
        message: String,
    },
}

/// What an [`ErrorDetails`] stands for.
pub enum ErrorDetailsView {
    BadRequest { field_violations: Seq<FieldViolationView> },
    DebugInfo { stack_entries: Option<Seq<Seq<char>>>, detail: Option<Seq<char>> },
    LocalizedMessage { locale: Seq<char>, message: Seq<char> },
}

impl View for ErrorDetails {
    type V = ErrorDetailsView;

    open spec fn view(&self) -> ErrorDetailsView {
        match *self {
            ErrorDetails::BadRequest { field_violations } => ErrorDetailsView::BadRequest {
                field_violations: field_violations.deep_view(),
            },
            ErrorDetails::DebugInfo { stack_entries, detail } => ErrorDetailsView::DebugInfo {
                stack_entries: stack_entries.deep_view(),
                detail: detail.deep_view(),
            },
            ErrorDetails::LocalizedMessage { locale, message } => {
                ErrorDetailsView::LocalizedMessage { locale: locale@, message: message@ }
            },
        }
    }
}

impl DeepView for ErrorDetails {
    type V = ErrorDetailsView;

    open spec fn deep_view(&self) -> ErrorDetailsView {
        self@
    }
}

impl Clone for ErrorDetails {
    fn clone(&self) -> (copy: Self)
        ensures
            copy@ == self@,
    {
        match self {
            ErrorDetails::BadRequest { field_violations } => ErrorDetails::BadRequest {
                field_violations: field_violations.clone(),
            },
            ErrorDetails::DebugInfo { stack_entries, detail } => ErrorDetails::DebugInfo {
                stack_entries: stack_entries.clone(),
                detail: detail.clone(),
            },
            ErrorDetails::LocalizedMessage { locale, message } => ErrorDetails::LocalizedMessage {
                locale: locale.clone(),
                message: message.clone(),
            },
        }
    }
}

/// The detail that reports one violation.
pub open spec fn bad_request_of(violation: FieldViolationView) -> ErrorDetailsView {
    ErrorDetailsView::BadRequest { field_violations: seq![violation] }
}

/// The detail that carries `detail` as debugging text, without a stack trace.
pub open spec fn debug_info_of(detail: Seq<char>) -> ErrorDetailsView {
    ErrorDetailsView::DebugInfo { stack_entries: None, detail: Some(detail) }
}

/// The machine-readable name of a detail's kind.
pub open spec fn details_tag(details: ErrorDetailsView) -> Seq<char> {
    match details {
        ErrorDetailsView::BadRequest { .. } => "BAD_REQUEST"@,
        ErrorDetailsView::DebugInfo { .. } => "DEBUG_INFO"@,
        ErrorDetailsView::LocalizedMessage { .. } => "LOCALIZED_MESSAGE"@,
    }
}

impl ErrorDetails {
    /// The detail that reports the single violation `field_violation`.
    pub fn bad_request(field_violation: FieldViolation) -> (details: ErrorDetails)
        ensures
            details@ == bad_request_of(field_violation@),
    {
        let mut field_violations = Vec::new();
        field_violations.push(field_violation);
        assert(field_violations.deep_view() =~= seq![field_violation@]);
        ErrorDetails::BadRequest { field_violations }
    }

    /// The detail that carries `detail` as debugging text.
    pub fn debug_info(detail: &str) -> (details: ErrorDetails)
        ensures
            details@ == debug_info_of(detail@),
    {
        ErrorDetails::DebugInfo { stack_entries: None, detail: Some(detail.to_owned()) }
    }

    /// The detail that carries `message`, written in the language `locale`.
    pub fn localized_message(locale: &str, message: &str) -> (details: ErrorDetails)
        ensures
            details@ == (ErrorDetailsView::LocalizedMessage {
                locale: locale@,
                message: message@,
            }),
    {
        ErrorDetails::LocalizedMessage { locale: locale.to_owned(), message: message.to_owned() }
    }

    /// The machine-readable name of the detail's kind; the fields are not
    /// part of it.
    pub fn to_string(&self) -> (text: String)
        ensures
            text@ == details_tag(self@),
    {
        match self {
            ErrorDetails::BadRequest { .. } => "BAD_REQUEST".to_owned(),
            ErrorDetails::DebugInfo { .. } => "DEBUG_INFO".to_owned(),
            ErrorDetails::LocalizedMessage { .. } => "LOCALIZED_MESSAGE".to_owned(),
        }
    }
}

} // verus!
