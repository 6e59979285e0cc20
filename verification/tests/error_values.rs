use appbiotic_code::{code, Error, ErrorDetails, ErrorKind, ErrorStatus, Field, FieldViolation};

#[test]
fn error_display() {
    let error = Error::internal(Some("Something bad happened".to_string()))
        .with_error("Invalid operation");
    assert_eq!(error.to_string(), "INTERNAL");
    assert!(error
        .inner()
        .details
        .as_ref()
        .expect("some error details")
        .iter()
        .any(|d| &d.to_string() == "DEBUG_INFO"));
}

fn all_kinds() -> Vec<(ErrorKind, Error, i32, &'static str, u16)> {
    vec![
        (ErrorKind::Cancelled, Error::cancelled(None), 1, "CANCELLED", 499),
        (ErrorKind::Unknown, Error::unknown(None), 2, "UNKNOWN", 500),
        (ErrorKind::InvalidArgument, Error::invalid_argument(None), 3, "INVALID_ARGUMENT", 400),
        (ErrorKind::DeadlineExceeded, Error::deadline_exceeded(None), 4, "DEADLINE_EXCEEDED", 504),
        (ErrorKind::NotFound, Error::not_found(None), 5, "NOT_FOUND", 404),
        (ErrorKind::AlreadyExists, Error::already_exists(None), 6, "ALREADY_EXISTS", 409),
        (ErrorKind::PermissionDenied, Error::permission_denied(None), 7, "PERMISSION_DENIED", 403),
        (ErrorKind::ResourceExhausted, Error::resource_exhausted(None), 8, "RESOURCE_EXHAUSTED", 429),
        (ErrorKind::FailedPrecondition, Error::failed_precondition(None), 9, "FAILED_PRECONDITION", 400),
        (ErrorKind::Aborted, Error::aborted(None), 10, "ABORTED", 409),
        (ErrorKind::OutOfRange, Error::out_of_range(None), 11, "OUT_OF_RANGE", 400),
        (ErrorKind::Unimplemented, Error::unimplemented(None), 12, "UNIMPLEMENTED", 501),
        (ErrorKind::Internal, Error::internal(None), 13, "INTERNAL", 500),
        (ErrorKind::Unavailable, Error::unavailable(None), 14, "UNAVAILABLE", 503),
        (ErrorKind::DataLoss, Error::data_loss(None), 15, "DATA_LOSS", 500),
        (ErrorKind::Unauthenticated, Error::unauthenticated(None), 16, "UNAUTHENTICATED", 401),
    ]
}

#[test]
fn every_kind_has_its_code_name_and_http_status() {
    for (kind, error, code, name, http) in all_kinds() {
        assert_eq!(error.kind(), kind);
        assert_eq!(error.code(), code);
        assert_eq!(kind.code(), code);
        assert_eq!(error.to_string(), name);
        assert_eq!(kind.name(), name);
        assert_eq!(kind.http_status(), http);
    }
}

#[test]
fn code_constants_are_the_wire_numbers() {
    assert_eq!(code::OK, 0);
    assert_eq!(code::CANCELLED, 1);
    assert_eq!(code::UNKNOWN, 2);
    assert_eq!(code::INVALID_ARGUMENT, 3);
    assert_eq!(code::DEADLINE_EXCEEDED, 4);
    assert_eq!(code::NOT_FOUND, 5);
    assert_eq!(code::ALREADY_EXISTS, 6);
    assert_eq!(code::PERMISSION_DENIED, 7);
    assert_eq!(code::RESOURCE_EXHAUSTED, 8);
    assert_eq!(code::FAILED_PRECONDITION, 9);
    assert_eq!(code::ABORTED, 10);
    assert_eq!(code::OUT_OF_RANGE, 11);
    assert_eq!(code::UNIMPLEMENTED, 12);
    assert_eq!(code::INTERNAL, 13);
    assert_eq!(code::UNAVAILABLE, 14);
    assert_eq!(code::DATA_LOSS, 15);
    assert_eq!(code::UNAUTHENTICATED, 16);
}

#[test]
fn kind_is_read_back_from_its_code() {
    for (kind, _, code, _, _) in all_kinds() {
        assert_eq!(ErrorKind::from_code(code), Some(kind));
    }
}

#[test]
fn code_of_success_and_unknown_numbers_are_no_kind() {
    assert_eq!(ErrorKind::from_code(0), None);
    assert_eq!(ErrorKind::from_code(17), None);
    assert_eq!(ErrorKind::from_code(-1), None);
    assert_eq!(ErrorKind::from_code(i32::MAX), None);
    assert_eq!(ErrorKind::from_code(i32::MIN), None);
}

#[test]
fn codes_are_pairwise_distinct() {
    let kinds = all_kinds();
    for (i, a) in kinds.iter().enumerate() {
        for (j, b) in kinds.iter().enumerate() {
            assert_eq!(a.0.code() == b.0.code(), i == j);
        }
    }
}

#[test]
fn constructor_sets_message_and_no_details() {
    let error = Error::not_found(Some("no such file".to_string()));
    assert_eq!(error.inner().message.as_deref(), Some("no such file"));
    assert!(error.inner().details.is_none());
    let bare = Error::aborted(None);
    assert!(bare.inner().message.is_none());
    assert!(bare.inner().details.is_none());
}

#[test]
fn with_error_keeps_kind_message_and_earlier_details() {
    let error = Error::invalid_argument_field(
        Some("bad request".to_string()),
        "age".to_string(),
        Some("must not be negative".to_string()),
    )
    .with_error("first")
    .with_error(42);
    assert_eq!(error.kind(), ErrorKind::InvalidArgument);
    assert_eq!(error.inner().message.as_deref(), Some("bad request"));
    let details = error.inner().details.as_ref().expect("details");
    assert_eq!(details.len(), 3);
    assert_eq!(details[0].to_string(), "BAD_REQUEST");
    match &details[1] {
        ErrorDetails::DebugInfo { stack_entries, detail } => {
            assert!(stack_entries.is_none());
            assert_eq!(detail.as_deref(), Some("first"));
        }
        _ => panic!("second detail is debug info"),
    }
    match &details[2] {
        ErrorDetails::DebugInfo { stack_entries, detail } => {
            assert!(stack_entries.is_none());
            assert_eq!(detail.as_deref(), Some("42"));
        }
        _ => panic!("third detail is debug info"),
    }
}

#[test]
fn invalid_argument_field_reports_the_member() {
    let error = Error::invalid_argument_field(
        Some("m".to_string()),
        "nickname".to_string(),
        None,
    );
    assert_eq!(error.code(), 3);
    let details = error.inner().details.as_ref().expect("details");
    assert_eq!(details.len(), 1);
    match &details[0] {
        ErrorDetails::BadRequest { field_violations } => {
            assert_eq!(field_violations.len(), 1);
            assert_eq!(field_violations[0].field.to_string(), "nickname");
            assert!(field_violations[0].description.is_none());
        }
        _ => panic!("the detail is a bad request"),
    }
}

#[test]
fn invalid_argument_field_name_has_no_message() {
    let error = Error::invalid_argument_field_name("email", "is not an address");
    assert_eq!(error.kind(), ErrorKind::InvalidArgument);
    assert!(error.inner().message.is_none());
    let details = error.inner().details.as_ref().expect("details");
    match &details[0] {
        ErrorDetails::BadRequest { field_violations } => {
            assert_eq!(field_violations[0].field.to_string(), "email");
            assert_eq!(
                field_violations[0].description.as_deref(),
                Some("is not an address")
            );
        }
        _ => panic!("the detail is a bad request"),
    }
}

#[test]
fn field_invalid_argument_reports_the_whole_path() {
    let error = Field::member("email")
        .within_array_member("contacts", 7)
        .invalid_argument("bad contact", "is not an address");
    assert_eq!(error.to_string(), "INVALID_ARGUMENT");
    assert_eq!(error.inner().message.as_deref(), Some("bad contact"));
    let details = error.inner().details.as_ref().expect("details");
    assert_eq!(details.len(), 1);
    match &details[0] {
        ErrorDetails::BadRequest { field_violations } => {
            assert_eq!(field_violations.len(), 1);
            assert_eq!(field_violations[0].field.to_string(), "contacts[7].email");
            assert_eq!(
                field_violations[0].description.as_deref(),
                Some("is not an address")
            );
        }
        _ => panic!("the detail is a bad request"),
    }
}

#[test]
fn status_details_are_append_only() {
    let status = ErrorStatus::default()
        .with_details(ErrorDetails::debug_info("one"))
        .with_details(ErrorDetails::localized_message("fr-CH", "deux"))
        .with_message(Some("late message".to_string()))
        .with_details(ErrorDetails::bad_request(FieldViolation::for_member(
            "three".to_string(),
            None,
        )));
    assert_eq!(status.message.as_deref(), Some("late message"));
    let details = status.details.expect("details");
    let tags: Vec<String> = details.iter().map(|d| d.to_string()).collect();
    assert_eq!(tags, vec!["DEBUG_INFO", "LOCALIZED_MESSAGE", "BAD_REQUEST"]);
    match &details[1] {
        ErrorDetails::LocalizedMessage { locale, message } => {
            assert_eq!(locale, "fr-CH");
            assert_eq!(message, "deux");
        }
        _ => panic!("second detail is a localized message"),
    }
}

#[test]
fn default_status_is_empty() {
    let status = ErrorStatus::default();
    assert!(status.message.is_none());
    assert!(status.details.is_none());
}

#[test]
fn with_message_can_clear_the_message() {
    let status = ErrorStatus::default()
        .with_message(Some("x".to_string()))
        .with_message(None);
    assert!(status.message.is_none());
}

#[test]
fn unwrapping_the_status_keeps_its_content() {
    let error = Error::data_loss(Some("gone".to_string())).with_error("disk");
    let status: ErrorStatus = error.into();
    assert_eq!(status.message.as_deref(), Some("gone"));
    assert_eq!(status.details.expect("details").len(), 1);
}

#[test]
fn cloned_error_is_alike() {
    let error = Error::unavailable(Some("later".to_string())).with_error("retry");
    let copy = error.clone();
    assert_eq!(copy.code(), error.code());
    assert_eq!(copy.inner().message, error.inner().message);
    assert_eq!(
        copy.inner().details.as_ref().map(|d| d.len()),
        error.inner().details.as_ref().map(|d| d.len())
    );
}
