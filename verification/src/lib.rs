//! Error values with a fixed numeric code table, structured detail records,
//! and the value model of the buffers, strings and envelopes that carry an
//! outcome across a foreign-function boundary.

#![allow(non_camel_case_types)]

pub mod bindings;
pub mod code;
pub mod codec;
pub mod details;
pub mod envelope;
pub mod error;
pub mod ffi;
pub mod field;
pub mod generation;
pub mod googleapis;
pub mod greeter;
pub mod http_status;
pub mod kind;
pub mod message;
pub mod rpc;
pub mod status;
pub mod text;

pub use crate::codec::RustProtobufEncodingError;
pub use crate::details::{ErrorDetails, FieldViolation};
pub use crate::envelope::{
    AppbioticCodeError_Result, AppbioticCodeError_ResultCallback, AppbioticCodeError_Status,
};
pub use crate::error::Error;
pub use crate::ffi::{
    AppbioticCodeFfi_OwnedVec, AppbioticCodeFfi_ReferencedVec, AppbioticCodeFfi_String,
};
pub use crate::field::{Field, Property};
pub use crate::generation::{ExternPath, ProtosGenerationConfig, SwiftModuleMappings, SwiftNaming};
pub use crate::kind::ErrorKind;
pub use crate::message::{Request, Response};
pub use crate::status::ErrorStatus;
