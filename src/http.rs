//! What the client decides from an HTTP answer, and the headers it sends.

use vstd::prelude::*;

use crate::error::{Error, ErrorType};
use crate::text::prefixed;

verus! {

/// Whether an HTTP status code is a success, `2xx`.
pub open spec fn success_code(code: u16) -> bool {
    200 <= code && code < 300
}

/// Whether an HTTP status code is a success, `2xx`.
pub fn is_success(code: u16) -> (r: bool)
    ensures
        r == success_code(code),
{
    200 <= code && code < 300
}

/// The error for a non-success answer: of kind `kind`, with the message
/// `Error: <status> - <body>`.
pub fn status_error(kind: ErrorType, status: &str, body: &str) -> (r: Error)
    ensures
        r.error_type == kind,
        r.message@ == "Error: "@ + status@ + " - "@ + body@,
{
    let mut m = prefixed("Error: ", status);
    m.append(" - ");
    m.append(body);
    Error { error_type: kind, message: m }
}

/// What the token endpoint's answer means before its body is read: a success
/// lets the body be decoded; any other status is an `AuthenticationError`
/// carrying the status and the body.
pub fn token_endpoint_status(code: u16, status: &str, body: &str) -> (r: Result<(), Error>)
    ensures
        success_code(code) <==> r is Ok,
        r matches Err(e) ==> e.error_type == ErrorType::AuthenticationError && e.message@ == "Error: "@
            + status@ + " - "@ + body@,
{
    if is_success(code) {
        Ok(())
    } else {
        Err(status_error(ErrorType::AuthenticationError, status, body))
    }
}

/// The value of the `Authorization` header that presents `token`.
pub fn bearer_value(token: &str) -> (r: String)
    ensures
        r@ == "Bearer "@ + token@,
{
    prefixed("Bearer ", token)
}

} // verus!
