use appbiotic_code::{
    AppbioticCodeError_Result, AppbioticCodeError_ResultCallback, AppbioticCodeError_Status,
    AppbioticCodeFfi_OwnedVec, AppbioticCodeFfi_ReferencedVec, AppbioticCodeFfi_String, Error,
};
use std::cell::RefCell;
use std::rc::Rc;

#[test]
fn owned_buffer_round_trip() {
    let mut buffer = AppbioticCodeFfi_OwnedVec::from(vec![1u8, 2, 3]);
    assert!(!buffer.is_null());
    assert_eq!(buffer.len(), 3);
    assert_eq!(buffer.as_slice(), &[1u8, 2, 3]);
    buffer.release();
    assert!(buffer.is_null());
    assert_eq!(buffer.len(), 0);
    assert!(buffer.as_slice().is_empty());
}

#[test]
fn releasing_an_absent_buffer_does_nothing() {
    let mut buffer = AppbioticCodeFfi_OwnedVec::default();
    assert!(buffer.is_null());
    assert_eq!(buffer.len(), 0);
    buffer.release();
    assert!(buffer.is_null());
    assert_eq!(buffer.len(), 0);
    buffer.release();
    assert!(buffer.is_null());
}

#[test]
fn owned_buffer_hands_its_bytes_over() {
    let buffer = AppbioticCodeFfi_OwnedVec::from(vec![9u8, 8, 7, 6]);
    assert_eq!(buffer.into_bytes(), Some(vec![9u8, 8, 7, 6]));
    assert_eq!(AppbioticCodeFfi_OwnedVec::default().into_bytes(), None);
}

#[test]
fn empty_owned_buffer_is_not_the_absent_one() {
    let buffer = AppbioticCodeFfi_OwnedVec::from(Vec::new());
    assert!(!buffer.is_null());
    assert_eq!(buffer.len(), 0);
    assert_eq!(buffer.into_bytes(), Some(Vec::new()));
}

#[test]
fn referenced_buffer_reads_like_the_bytes() {
    let buffer = AppbioticCodeFfi_ReferencedVec::from(vec![5u8, 6]);
    assert!(!buffer.is_null());
    assert_eq!(buffer.len(), 2);
    assert_eq!(buffer.as_slice(), &[5u8, 6]);
    let absent = AppbioticCodeFfi_ReferencedVec::default();
    assert!(absent.is_null());
    assert_eq!(absent.len(), 0);
    assert!(absent.as_slice().is_empty());
}

#[test]
fn text_crosses_as_it_stands() {
    let text = AppbioticCodeFfi_String::from("héllo wörld".to_string());
    assert!(!text.is_null());
    assert_eq!(text.as_str(), Some("héllo wörld"));
    assert_eq!(text.into_text(), Some("héllo wörld".to_string()));
}

#[test]
fn text_is_handed_over_as_terminated_bytes() {
    let text = AppbioticCodeFfi_String::from("héllo".to_string());
    assert_eq!(
        text.into_bytes_with_nul(),
        Some(vec![104u8, 195, 169, 108, 108, 111, 0])
    );
    let empty = AppbioticCodeFfi_String::from(String::new());
    assert_eq!(empty.into_bytes_with_nul(), Some(vec![0u8]));
    assert_eq!(AppbioticCodeFfi_String::default().into_bytes_with_nul(), None);
    let lost = AppbioticCodeFfi_String::from("a\0b".to_string());
    assert_eq!(lost.into_bytes_with_nul(), None);
    let wide = AppbioticCodeFfi_String::from("€𝄞".to_string());
    let bytes = wide.into_bytes_with_nul().expect("bytes");
    assert_eq!(bytes, vec![0xE2, 0x82, 0xAC, 0xF0, 0x9D, 0x84, 0x9E, 0]);
    assert_eq!(bytes.iter().position(|b| *b == 0), Some(bytes.len() - 1));
}

#[test]
fn empty_text_is_present() {
    let text = AppbioticCodeFfi_String::from(String::new());
    assert!(!text.is_null());
    assert_eq!(text.as_str(), Some(""));
}

#[test]
fn text_with_terminator_becomes_absent() {
    for bad in ["\0", "a\0b", "\0start", "end\0", "é\0é"] {
        let text = AppbioticCodeFfi_String::from(bad.to_string());
        assert!(text.is_null());
        assert_eq!(text.as_str(), None);
        assert_eq!(text.into_text(), None);
    }
}

#[test]
fn has_terminator_finds_it_anywhere() {
    assert!(!appbiotic_code::ffi::has_terminator(""));
    assert!(!appbiotic_code::ffi::has_terminator("plain"));
    assert!(appbiotic_code::ffi::has_terminator("\0"));
    assert!(appbiotic_code::ffi::has_terminator("ab\0"));
    assert!(appbiotic_code::ffi::has_terminator("\0ab"));
    assert!(appbiotic_code::ffi::has_terminator("a\0b"));
}

#[test]
fn default_text_is_absent_and_release_is_harmless() {
    let mut text = AppbioticCodeFfi_String::default();
    assert!(text.is_null());
    text.release();
    assert!(text.is_null());
    let mut present = AppbioticCodeFfi_String::from("x".to_string());
    present.release();
    assert!(present.is_null());
    present.release();
    assert!(present.is_null());
}

#[test]
fn status_ok_has_code_zero_and_no_message() {
    let status = AppbioticCodeError_Status::ok();
    assert_eq!(status.code, 0);
    assert!(status.message.is_null());
}

#[test]
fn status_from_error_has_code_and_message() {
    let status = AppbioticCodeError_Status::from(Error::not_found(Some("x".to_string())));
    assert_eq!(status.code, 5);
    assert_eq!(status.message.as_str(), Some("x"));
}

#[test]
fn status_from_error_without_message_has_none() {
    let status = AppbioticCodeError_Status::from(Error::unauthenticated(None));
    assert_eq!(status.code, 16);
    assert!(status.message.is_null());
}

#[test]
fn status_from_error_drops_a_message_with_terminator() {
    let status = AppbioticCodeError_Status::from(Error::internal(Some("a\0b".to_string())));
    assert_eq!(status.code, 13);
    assert!(status.message.is_null());
}

#[test]
fn status_from_error_leaves_details_behind() {
    let error = Error::invalid_argument_field(
        Some("bad".to_string()),
        "age".to_string(),
        Some("negative".to_string()),
    )
    .with_error("trace");
    let status = AppbioticCodeError_Status::from(error);
    assert_eq!(status.code, 3);
    assert_eq!(status.message.as_str(), Some("bad"));
}

#[test]
fn status_with_message_keeps_the_code() {
    let status = AppbioticCodeError_Status::ok().with_message("all good");
    assert_eq!(status.code, 0);
    assert_eq!(status.message.as_str(), Some("all good"));
    let replaced = AppbioticCodeError_Status::from(Error::aborted(Some("first".to_string())))
        .with_message("second");
    assert_eq!(replaced.code, 10);
    assert_eq!(replaced.message.as_str(), Some("second"));
    let lost = replaced.with_message("a\0");
    assert_eq!(lost.code, 10);
    assert!(lost.message.is_null());
}

#[test]
fn result_from_bytes_is_a_success() {
    let result = AppbioticCodeError_Result::from(vec![1u8, 2, 3]);
    assert_eq!(result.status.code, 0);
    assert!(result.status.message.is_null());
    assert_eq!(result.response.len(), 3);
    assert_eq!(result.response.as_slice(), &[1u8, 2, 3]);
}

#[test]
fn result_from_error_has_no_response() {
    let result = AppbioticCodeError_Result::from(Error::cancelled(Some("stop".to_string())));
    assert!(result.response.is_null());
    assert_eq!(result.response.len(), 0);
    assert_eq!(result.status.code, 1);
    assert_eq!(result.status.message.as_str(), Some("stop"));
}

#[test]
fn result_with_message_keeps_response_and_code() {
    let result = AppbioticCodeError_Result::from(vec![4u8, 2]).with_message("note");
    assert_eq!(result.response.as_slice(), &[4u8, 2]);
    assert_eq!(result.status.code, 0);
    assert_eq!(result.status.message.as_str(), Some("note"));
}

#[test]
fn callback_delivers_the_bytes_once() {
    let received: Rc<RefCell<Vec<Vec<u8>>>> = Rc::new(RefCell::new(Vec::new()));
    let sink = Rc::clone(&received);
    let callback = AppbioticCodeError_ResultCallback::new(move |result: AppbioticCodeError_Result| {
        assert_eq!(result.status.code, 0);
        let bytes = result.response.into_bytes().expect("response bytes");
        sink.borrow_mut().push(bytes);
    });
    callback.on_result(AppbioticCodeError_Result::from(vec![1u8, 2, 3]));
    let seen = received.borrow();
    assert_eq!(seen.len(), 1);
    assert_eq!(seen[0], vec![1u8, 2, 3]);
}

#[test]
fn callback_hands_ownership_to_the_receiver() {
    let mut kept: Option<AppbioticCodeError_Result> = None;
    let callback = AppbioticCodeError_ResultCallback::new(|result| kept = Some(result));
    callback.on_result(AppbioticCodeError_Result::from(vec![7u8; 5]));
    let mut result = kept.expect("the receiver was called");
    assert_eq!(result.response.as_slice(), &[7u8; 5]);
    result.response.release();
    assert!(result.response.is_null());
}

#[test]
fn callback_delivers_a_cancellation_like_any_error() {
    let mut code = 0;
    let callback = AppbioticCodeError_ResultCallback::new(|result: AppbioticCodeError_Result| {
        code = result.status.code;
        assert!(result.response.is_null());
    });
    callback.on_result(AppbioticCodeError_Result::from(Error::cancelled(None)));
    assert_eq!(code, 1);
}

fn needs_send<T: Send>(value: T) -> T {
    value
}

#[test]
fn callback_with_a_sendable_receiver_can_change_threads() {
    let (sender, receiver) = std::sync::mpsc::channel::<Vec<u8>>();
    let callback = needs_send(AppbioticCodeError_ResultCallback::new(
        move |result: AppbioticCodeError_Result| {
            sender.send(result.response.into_bytes().expect("bytes")).expect("send");
        },
    ));
    callback.on_result(AppbioticCodeError_Result::from(vec![3u8, 1, 4]));
    assert_eq!(receiver.recv().expect("recv"), vec![3u8, 1, 4]);
}
