//! HTTP status codes: the numbers the admin service answers with, and their
//! conversion into the status type of the HTTP stack.

use vstd::prelude::*;

verus! {

/// 400 Bad Request.
pub const BAD_REQUEST: u16 = 400;
/// 404 Not Found.
pub const NOT_FOUND: u16 = 404;
/// 500 Internal Server Error.
pub const INTERNAL_SERVER_ERROR: u16 = 500;
/// 502 Bad Gateway.
pub const BAD_GATEWAY: u16 = 502;

#[verifier::external_type_specification]
#[verifier::external_body]
pub struct ExStatusCode(axum::http::StatusCode);

#[verifier::external_type_specification]
#[verifier::external_body]
pub struct ExInvalidStatusCode(axum::http::status::InvalidStatusCode);

/// The status of the HTTP stack that `StatusCode::from_u16` builds for a
/// valid code. That function is a `const fn` of its argument alone, so the
/// same code always gives the same status.
pub uninterp spec fn status_of_code(code: u16) -> axum::http::StatusCode;

/// Calls `StatusCode::from_u16` of the `http` crate (re-exported by axum).
/// Its source accepts exactly the codes from 100 to 999, rejects every other
/// number, and builds the status from the code alone, holding the code
/// itself; the contract claims this, names the status built as
/// [`status_of_code`] of the code, and says that no other valid code builds
/// the same status.
#[verifier::external_body]
fn status_code_from_u16(code: u16) -> (r: Result<axum::http::StatusCode, axum::http::status::InvalidStatusCode>)
    ensures
        r is Ok <==> 100 <= code <= 999,
        r matches Ok(s) ==> s == status_of_code(code),
        r matches Ok(s) ==> forall|c: u16| 100 <= c <= 999 && #[trigger] status_of_code(c) == s ==> c == code,
{
    axum::http::StatusCode::from_u16(code)
}

/// The HTTP stack's status for a code in the valid range 100..=999.
pub fn to_status_code(code: u16) -> (r: axum::http::StatusCode)
    requires
        100 <= code <= 999,
    ensures
        r == status_of_code(code),
        forall|c: u16| 100 <= c <= 999 && #[trigger] status_of_code(c) == r ==> c == code,
{
    match status_code_from_u16(code) {
        Ok(status) => status,
        Err(_) => unreached(),
    }
}

} // verus!
