//! What an encoder of RPC messages decides before it writes, and what it
//! answers when it cannot write or read.

use crate::rpc::{new_status, status_code, status_message};
use crate::text::{decimal, decimal_string};
use vstd::prelude::*;
use vstd::string::StringExecFns;

verus! {

/// Why a message could not be encoded.
#[derive(Debug)]
pub enum RustProtobufEncodingError {
    /// The message is larger than any buffer on this machine can be.
    ArchitectureHasNotEnoughCapacity { message: String, requested_bytes: u64, max_bytes: usize },
    /// The message is larger than the room that is left in the buffer.
    BufferHasNotEnoughCapacity { message: String, requested_bytes: u64, remaining_bytes: usize },
    /// Writing into the buffer failed.
    WriteToBufferFailed { message: String },
}

/// What a [`RustProtobufEncodingError`] stands for.
pub enum EncodingErrorView {
    ArchitectureHasNotEnoughCapacity { message: Seq<char>, requested_bytes: nat, max_bytes: nat },
    BufferHasNotEnoughCapacity { message: Seq<char>, requested_bytes: nat, remaining_bytes: nat },
    WriteToBufferFailed { message: Seq<char> },
}

impl View for RustProtobufEncodingError {
    type V = EncodingErrorView;

    open spec fn view(&self) -> EncodingErrorView {
        match *self {
            RustProtobufEncodingError::ArchitectureHasNotEnoughCapacity {
                message,
                requested_bytes,
                max_bytes,
            } => EncodingErrorView::ArchitectureHasNotEnoughCapacity {
                message: message@,
                requested_bytes: requested_bytes as nat,
                max_bytes: max_bytes as nat,
            },
            RustProtobufEncodingError::BufferHasNotEnoughCapacity {
                message,
                requested_bytes,
                remaining_bytes,
            } => EncodingErrorView::BufferHasNotEnoughCapacity {
                message: message@,
                requested_bytes: requested_bytes as nat,
                remaining_bytes: remaining_bytes as nat,
            },
            RustProtobufEncodingError::WriteToBufferFailed { message } => {
                EncodingErrorView::WriteToBufferFailed { message: message@ }
            },
        }
    }
}

/// The sentence that describes an encoding error.
pub open spec fn error_text(error: EncodingErrorView) -> Seq<char> {
    match error {
        EncodingErrorView::ArchitectureHasNotEnoughCapacity {
            message,
            requested_bytes,
            max_bytes,
        } => "Architecture has not enough capacity to write message `"@ + message
            + "` requested "@ + decimal(requested_bytes) + " bytes, but only "@ + decimal(max_bytes)
            + " maximum bytes supported"@,
        EncodingErrorView::BufferHasNotEnoughCapacity {
            message,
            requested_bytes,
            remaining_bytes,
        } => "Provided buffer has not enough capacity to write message `"@ + message
            + "` requested "@ + decimal(requested_bytes) + " bytes, but only "@ + decimal(
            remaining_bytes,
        ) + " remaining bytes"@,
        EncodingErrorView::WriteToBufferFailed { message } => "Writing message to buffer failed: "@
            + message,
    }
}

/// The message of the status that an encoder answers an encoding error with.
pub open spec fn failure_text(error: EncodingErrorView) -> Seq<char> {
    match error {
        EncodingErrorView::ArchitectureHasNotEnoughCapacity {
            message,
            requested_bytes,
            max_bytes,
        } => "Architecture does not have enough capacity to write message `"@ + message
            + "` requested "@ + decimal(requested_bytes) + " bytes, but only "@ + decimal(max_bytes)
            + " maximum bytes supported"@,
        EncodingErrorView::BufferHasNotEnoughCapacity {
            message,
            requested_bytes,
            remaining_bytes,
        } => "Provided buffer does not have enough capacity to write message `"@ + message
            + "` requested "@ + decimal(requested_bytes) + " bytes, but only "@ + decimal(
            remaining_bytes,
        ) + " remaining bytes"@,
        EncodingErrorView::WriteToBufferFailed { message } => message,
    }
}

/// The code of the status that an encoder answers an encoding error with: a
/// message that does not fit is a failed precondition, a write that failed
/// is an internal error.
pub open spec fn failure_code(error: EncodingErrorView) -> tonic::Code {
    match error {
        EncodingErrorView::WriteToBufferFailed { .. } => tonic::Code::Internal,
        _ => tonic::Code::FailedPrecondition,
    }
}

/// What is decided for a message called `message` that takes
/// `requested_bytes` bytes when `remaining_bytes` are left in the buffer: the
/// number of bytes to write, or the reason why it cannot be written.
pub open spec fn capacity_decision(
    message: Seq<char>,
    requested_bytes: u64,
    remaining_bytes: usize,
) -> Result<usize, EncodingErrorView> {
    if requested_bytes > usize::MAX {
        Err(
            EncodingErrorView::ArchitectureHasNotEnoughCapacity {
                message,
                requested_bytes: requested_bytes as nat,
                max_bytes: usize::MAX as nat,
            },
        )
    } else if requested_bytes > remaining_bytes {
        Err(
            EncodingErrorView::BufferHasNotEnoughCapacity {
                message,
                requested_bytes: requested_bytes as nat,
                remaining_bytes: remaining_bytes as nat,
            },
        )
    } else {
        Ok(requested_bytes as usize)
    }
}

/// What the outcome of a capacity check stands for.
pub open spec fn decision_view(outcome: Result<usize, RustProtobufEncodingError>) -> Result<
    usize,
    EncodingErrorView,
> {
    match outcome {
        Ok(bytes) => Ok(bytes),
        Err(error) => Err(error@),
    }
}

impl RustProtobufEncodingError {
    /// Writes the sentence that describes the error.
    pub fn to_string(&self) -> (text: String)
        ensures
            text@ == error_text(self@),
    {
        match self {
            RustProtobufEncodingError::ArchitectureHasNotEnoughCapacity {
                message,
                requested_bytes,
                max_bytes,
            } => {
                let mut text =
                    "Architecture has not enough capacity to write message `".to_owned();
                text.append(message.as_str());
                text.append("` requested ");
                text.append(decimal_string(*requested_bytes).as_str());
                text.append(" bytes, but only ");
                text.append(decimal_string(*max_bytes as u64).as_str());
                text.append(" maximum bytes supported");
                text
            },
            RustProtobufEncodingError::BufferHasNotEnoughCapacity {
                message,
                requested_bytes,
                remaining_bytes,
            } => {
                let mut text =
                    "Provided buffer has not enough capacity to write message `".to_owned();
                text.append(message.as_str());
                text.append("` requested ");
                text.append(decimal_string(*requested_bytes).as_str());
                text.append(" bytes, but only ");
                text.append(decimal_string(*remaining_bytes as u64).as_str());
                text.append(" remaining bytes");
                text
            },
            RustProtobufEncodingError::WriteToBufferFailed { message } => {
                let mut text = "Writing message to buffer failed: ".to_owned();
                text.append(message.as_str());
                text
            },
        }
    }

    /// The status that an encoder answers the error with.
    pub fn into_status(self) -> (status: tonic::Status)
        ensures
            status_code(status) == failure_code(self@),
            status_message(status) == failure_text(self@),
    {
        match self {
            RustProtobufEncodingError::ArchitectureHasNotEnoughCapacity {
                message,
                requested_bytes,
                max_bytes,
            } => {
                let mut text =
                    "Architecture does not have enough capacity to write message `".to_owned();
                text.append(message.as_str());
                text.append("` requested ");
                text.append(decimal_string(requested_bytes).as_str());
                text.append(" bytes, but only ");
                text.append(decimal_string(max_bytes as u64).as_str());
                text.append(" maximum bytes supported");
                new_status(tonic::Code::FailedPrecondition, text)
            },
            RustProtobufEncodingError::BufferHasNotEnoughCapacity {
                message,
                requested_bytes,
                remaining_bytes,
            } => {
                let mut text =
                    "Provided buffer does not have enough capacity to write message `".to_owned();
                text.append(message.as_str());
                text.append("` requested ");
                text.append(decimal_string(requested_bytes).as_str());
                text.append(" bytes, but only ");
                text.append(decimal_string(remaining_bytes as u64).as_str());
                text.append(" remaining bytes");
                new_status(tonic::Code::FailedPrecondition, text)
            },
            RustProtobufEncodingError::WriteToBufferFailed { message } => new_status(
                tonic::Code::Internal,
                message,
            ),
        }
    }
}

/// Decides whether a message called `message` that takes `requested_bytes`
/// bytes can be written into a buffer with `remaining_bytes` bytes left.
pub fn check_capacity(message: &str, requested_bytes: u64, remaining_bytes: usize) -> (outcome:
    Result<usize, RustProtobufEncodingError>)
    ensures
        decision_view(outcome) == capacity_decision(message@, requested_bytes, remaining_bytes),
{
    if requested_bytes > usize::MAX as u64 {
        Err(
            RustProtobufEncodingError::ArchitectureHasNotEnoughCapacity {
                message: message.to_owned(),
                requested_bytes,
                max_bytes: usize::MAX,
            },
        )
    } else {
        let required = requested_bytes as usize;
        if required > remaining_bytes {
            Err(
                RustProtobufEncodingError::BufferHasNotEnoughCapacity {
                    message: message.to_owned(),
                    requested_bytes,
                    remaining_bytes,
                },
            )
        } else {
            Ok(required)
        }
    }
}

/// The message of the status that a decoder answers with when what it read
/// is no message of the type called `message`.
pub open spec fn downcast_failure_text(message: Seq<char>) -> Seq<char> {
    "Failed to downcast decoded for message type `"@ + message + "`"@
}

/// The status that a decoder answers with when what it read is no message of
/// the type called `message`: an internal error.
pub fn downcast_failure(message: &str) -> (status: tonic::Status)
    ensures
        status_code(status) == tonic::Code::Internal,
        status_message(status) == downcast_failure_text(message@),
{
    let mut text = "Failed to downcast decoded for message type `".to_owned();
    text.append(message);
    text.append("`");
    new_status(tonic::Code::Internal, text)
}

/// The status that a decoder answers with when reading failed for the reason
/// `reason`: an internal error with the reason for its message.
pub fn read_failure(reason: String) -> (status: tonic::Status)
    ensures
        status_code(status) == tonic::Code::Internal,
        status_message(status) == reason@,
{
    new_status(tonic::Code::Internal, reason)
}

} // verus!
