use appbiotic_code::codec::{check_capacity, downcast_failure, read_failure};
use appbiotic_code::greeter::get_greeting;
use appbiotic_code::RustProtobufEncodingError;
use tonic::Code;

#[test]
fn it_works() {
    let greeting = get_greeting(Some("Kris"));
    assert_eq!(&greeting, "Hello, Kris!");
}

#[test]
fn stranger_is_greeted_too() {
    assert_eq!(get_greeting(None), "Hello, stranger.");
    assert_eq!(get_greeting(Some("")), "Hello, !");
}

#[test]
fn message_that_fits_is_written() {
    assert!(matches!(check_capacity("pkg.Msg", 0, 0), Ok(0)));
    assert!(matches!(check_capacity("pkg.Msg", 10, 10), Ok(10)));
    assert!(matches!(check_capacity("pkg.Msg", 10, 11), Ok(10)));
}

#[test]
fn message_larger_than_the_room_left_is_refused() {
    match check_capacity("pkg.Msg", 11, 10) {
        Err(RustProtobufEncodingError::BufferHasNotEnoughCapacity {
            message,
            requested_bytes,
            remaining_bytes,
        }) => {
            assert_eq!(message, "pkg.Msg");
            assert_eq!(requested_bytes, 11);
            assert_eq!(remaining_bytes, 10);
        }
        _ => panic!("the buffer is too small"),
    }
}

#[test]
fn message_larger_than_the_machine_allows_is_refused() {
    if (usize::MAX as u128) < (u64::MAX as u128) {
        match check_capacity("pkg.Msg", u64::MAX, usize::MAX) {
            Err(RustProtobufEncodingError::ArchitectureHasNotEnoughCapacity {
                message,
                requested_bytes,
                max_bytes,
            }) => {
                assert_eq!(message, "pkg.Msg");
                assert_eq!(requested_bytes, u64::MAX);
                assert_eq!(max_bytes, usize::MAX);
            }
            _ => panic!("the message is too large for the machine"),
        }
    } else {
        assert!(matches!(check_capacity("pkg.Msg", u64::MAX, usize::MAX), Ok(usize::MAX)));
    }
}

#[test]
fn encoding_errors_are_described() {
    let architecture = RustProtobufEncodingError::ArchitectureHasNotEnoughCapacity {
        message: "pkg.Msg".to_string(),
        requested_bytes: 5000000000,
        max_bytes: 4294967295,
    };
    assert_eq!(
        architecture.to_string(),
        "Architecture has not enough capacity to write message `pkg.Msg` requested 5000000000 bytes, but only 4294967295 maximum bytes supported"
    );
    let buffer = RustProtobufEncodingError::BufferHasNotEnoughCapacity {
        message: "pkg.Msg".to_string(),
        requested_bytes: 11,
        remaining_bytes: 10,
    };
    assert_eq!(
        buffer.to_string(),
        "Provided buffer has not enough capacity to write message `pkg.Msg` requested 11 bytes, but only 10 remaining bytes"
    );
    let write = RustProtobufEncodingError::WriteToBufferFailed { message: "broken pipe".to_string() };
    assert_eq!(write.to_string(), "Writing message to buffer failed: broken pipe");
}

#[test]
fn encoding_errors_become_statuses() {
    let architecture = RustProtobufEncodingError::ArchitectureHasNotEnoughCapacity {
        message: "pkg.Msg".to_string(),
        requested_bytes: 5000000000,
        max_bytes: 4294967295,
    }
    .into_status();
    assert_eq!(architecture.code(), Code::FailedPrecondition);
    assert_eq!(
        architecture.message(),
        "Architecture does not have enough capacity to write message `pkg.Msg` requested 5000000000 bytes, but only 4294967295 maximum bytes supported"
    );
    let buffer = RustProtobufEncodingError::BufferHasNotEnoughCapacity {
        message: "pkg.Msg".to_string(),
        requested_bytes: 11,
        remaining_bytes: 10,
    }
    .into_status();
    assert_eq!(buffer.code(), Code::FailedPrecondition);
    assert_eq!(
        buffer.message(),
        "Provided buffer does not have enough capacity to write message `pkg.Msg` requested 11 bytes, but only 10 remaining bytes"
    );
    let write = RustProtobufEncodingError::WriteToBufferFailed { message: "broken pipe".to_string() }
        .into_status();
    assert_eq!(write.code(), Code::Internal);
    assert_eq!(write.message(), "broken pipe");
}

#[test]
fn decoder_failures_are_internal_errors() {
    let downcast = downcast_failure("pkg.Msg");
    assert_eq!(downcast.code(), Code::Internal);
    assert_eq!(downcast.message(), "Failed to downcast decoded for message type `pkg.Msg`");
    let read = read_failure("unexpected end of input".to_string());
    assert_eq!(read.code(), Code::Internal);
    assert_eq!(read.message(), "unexpected end of input");
}
