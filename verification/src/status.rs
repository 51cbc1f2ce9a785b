//! HTTP status codes, as the `http` crate represents them.

use vstd::prelude::*;

verus! {

/// `http::StatusCode`: a status code, held as one number.
#[verifier::external_type_specification]
#[verifier::external_body]
pub struct ExStatusCode(http::StatusCode);

/// `http::status::InvalidStatusCode`: the error of a number that is no status code.
#[verifier::external_type_specification]
#[verifier::external_body]
pub struct ExInvalidStatusCode(http::status::InvalidStatusCode);

/// The number that a status code holds: what `http::StatusCode::as_u16` returns for it.
pub uninterp spec fn status_number(status: http::StatusCode) -> u16;

/// `http::StatusCode::from_u16` accepts exactly the numbers from 100 to 999, and
/// the code it returns holds the number it was given.
pub assume_specification[ http::StatusCode::from_u16 ](src: u16) -> (status: Result<
    http::StatusCode,
    http::status::InvalidStatusCode,
>)
    ensures
        100 <= src <= 999 ==> status is Ok && status_number(status->Ok_0) == src,
        !(100 <= src <= 999) ==> status is Err,
;

} // verus!
