//! HTTP status codes: their classes and their canonical reason phrases.

use vstd::prelude::*;

verus! {

/// The canonical reason phrase that the `http` crate's table gives a status
/// code, if the code is a valid status and the table lists it.
pub uninterp spec fn reason_phrase(code: u16) -> Option<Seq<char>>;

/// Relies on `http::StatusCode::from_u16` and `StatusCode::canonical_reason`
/// (reached through axum): the phrase depends on the code alone.
#[verifier::external_body]
fn canonical_reason(code: u16) -> (r: Option<String>)
    ensures
        r.deep_view() == reason_phrase(code),
{
    let status = axum::http::StatusCode::from_u16(code).ok()?;
    status.canonical_reason().map(String::from)
}

/// The class of a status code, by its hundreds digit.
#[derive(Clone, Copy, Debug, PartialEq, Eq, Structural)]
pub enum StatusClass {
    Success,
    Redirect,
    ClientError,
    ServerError,
    Other,
}

pub open spec fn class_of(code: u16) -> StatusClass {
    if 200 <= code < 300 {
        StatusClass::Success
    } else if 300 <= code < 400 {
        StatusClass::Redirect
    } else if 400 <= code < 500 {
        StatusClass::ClientError
    } else if 500 <= code < 600 {
        StatusClass::ServerError
    } else {
        StatusClass::Other
    }
}

/// Classifies a status code as success (2xx), redirect (3xx), client error
/// (4xx), server error (5xx) or anything else.
pub fn classify_status(code: u16) -> (r: StatusClass)
    ensures
        r == class_of(code),
{
    if 200 <= code && code < 300 {
        StatusClass::Success
    } else if 300 <= code && code < 400 {
        StatusClass::Redirect
    } else if 400 <= code && code < 500 {
        StatusClass::ClientError
    } else if 500 <= code && code < 600 {
        StatusClass::ServerError
    } else {
        StatusClass::Other
    }
}

/// Whether a status is a client or a server error.
pub open spec fn is_error_status(code: u16) -> bool {
    400 <= code < 600
}

pub open spec fn reason_or_unknown(code: u16) -> Seq<char> {
    match reason_phrase(code) {
        Some(p) => p,
        None => "Unknown Error"@,
    }
}

/// The canonical reason phrase of a status, or "Unknown Error" where the
/// code has none.
pub fn reason_or_default(code: u16) -> (r: String)
    ensures
        r@ == reason_or_unknown(code),
{
    match canonical_reason(code) {
        Some(p) => p,
        None => String::from_str("Unknown Error"),
    }
}

} // verus!
