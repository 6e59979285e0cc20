//! The numeric status codes shared with the RPC wire format.

use vstd::prelude::*;

verus! {

pub const OK: i32 = 0;

pub const CANCELLED: i32 = 1;

pub const UNKNOWN: i32 = 2;

pub const INVALID_ARGUMENT: i32 = 3;

pub const DEADLINE_EXCEEDED: i32 = 4;

pub const NOT_FOUND: i32 = 5;

pub const ALREADY_EXISTS: i32 = 6;

pub const PERMISSION_DENIED: i32 = 7;

pub const UNAUTHENTICATED: i32 = 16;

pub const RESOURCE_EXHAUSTED: i32 = 8;

pub const FAILED_PRECONDITION: i32 = 9;

pub const ABORTED: i32 = 10;

pub const OUT_OF_RANGE: i32 = 11;

pub const UNIMPLEMENTED: i32 = 12;

pub const INTERNAL: i32 = 13;

pub const UNAVAILABLE: i32 = 14;

pub const DATA_LOSS: i32 = 15;

} // verus!
