//! Errors as HTTP status codes.

use crate::error::Error;
use vstd::pervasive::unreached;
use vstd::prelude::*;
use vstd::std_specs::convert::FromSpecImpl;

verus! {

#[verifier::external_type_specification]
#[verifier::external_body]
pub struct ExStatusCode(http::StatusCode);

#[verifier::external_type_specification]
#[verifier::external_body]
pub struct ExInvalidStatusCode(http::status::InvalidStatusCode);

/// What `http::StatusCode::from_u16` returns for `number`: the status code
/// that holds the number, or why there is none.
pub uninterp spec fn status_code_of(number: u16) -> Result<
    http::StatusCode,
    http::status::InvalidStatusCode,
>;

/// `http::StatusCode::from_u16` makes a status code of every number from 100
/// to 999 and of no other.
pub assume_specification[ http::StatusCode::from_u16 ](src: u16) -> (result: Result<
    http::StatusCode,
    http::status::InvalidStatusCode,
>)
    ensures
        result == status_code_of(src),
        result is Ok <==> 100 <= src <= 999,
;

impl From<Error> for http::StatusCode {
    /// The HTTP status that a response carries for `value`: the status code
    /// of the number that belongs to its kind.
    fn from(value: Error) -> (status: http::StatusCode)
        ensures
            status_code_of(value@.kind.http_status()) == Ok::<
                http::StatusCode,
                http::status::InvalidStatusCode,
            >(status),
    {
        let number = value.kind().http_status();
        match http::StatusCode::from_u16(number) {
            Ok(status) => status,
            Err(_) => unreached(),
        }
    }
}

impl FromSpecImpl<Error> for http::StatusCode {
    open spec fn obeys_from_spec() -> bool {
        true
    }

    open spec fn from_spec(value: Error) -> http::StatusCode {
        status_code_of(value@.kind.http_status())->Ok_0
    }
}

} // verus!
