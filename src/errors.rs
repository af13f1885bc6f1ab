//! The per-request failure taxonomy and the problem-details body that every
//! failure is shown as.

use vstd::prelude::*;

use crate::status::{reason_or_default, reason_or_unknown};

verus! {

/// The `type` member of every problem-details body.
pub const PROBLEM_TYPE: &'static str = "about:blank";

/// The detail shown to clients for every internal failure; the cause itself
/// is only logged.
pub const INTERNAL_DETAIL: &'static str = "Internal Server Error";

/// A failure of one request, classified before it leaves the core.
#[derive(Debug)]
pub enum ApiError {
    /// Malformed input, caught before any outbound call; the text is shown
    /// to the client as the detail.
    BadRequest(String),
    /// A transport failure, a collaborator's `ok=false` envelope or a
    /// malformed collaborator reply; the text is the cause, for the log.
    InternalServerError(String),
}

/// The uniform error body: `{ type, title, status, detail }`.
#[derive(Debug)]
pub struct ProblemDetails {
    pub problem_type: String,
    pub title: String,
    pub status: u16,
    pub detail: String,
}

/// `p` is the problem body for `status` with the given detail: type
/// "about:blank" and the status's reason phrase as title.
pub open spec fn is_problem(p: ProblemDetails, status: u16, detail: Seq<char>) -> bool {
    &&& p.problem_type@ == PROBLEM_TYPE@
    &&& p.title@ == reason_or_unknown(status)
    &&& p.status == status
    &&& p.detail@ == detail
}

/// Builds the problem body for a status and a detail.
pub fn problem_details(status: u16, detail: &str) -> (p: ProblemDetails)
    ensures
        is_problem(p, status, detail@),
{
    ProblemDetails {
        problem_type: String::from_str(PROBLEM_TYPE),
        title: reason_or_default(status),
        status,
        detail: String::from_str(detail),
    }
}

impl ApiError {
    /// The HTTP status of this failure's class.
    pub open spec fn spec_status(&self) -> u16 {
        match self {
            ApiError::BadRequest(_) => 400,
            ApiError::InternalServerError(_) => 500,
        }
    }

    /// The detail a client is shown: the message of a bad request, and a
    /// generic text for an internal failure.
    pub open spec fn spec_detail(&self) -> Seq<char> {
        match self {
            ApiError::BadRequest(m) => m@,
            ApiError::InternalServerError(_) => INTERNAL_DETAIL@,
        }
    }

    pub fn status(&self) -> (r: u16)
        ensures
            r == self.spec_status(),
    {
        match self {
            ApiError::BadRequest(_) => 400,
            ApiError::InternalServerError(_) => 500,
        }
    }

    /// The problem-details body that this failure is answered with.
    pub fn to_problem(&self) -> (p: ProblemDetails)
        ensures
            is_problem(p, self.spec_status(), self.spec_detail()),
    {
        match self {
            ApiError::BadRequest(m) => problem_details(400, m.as_str()),
            ApiError::InternalServerError(_) => problem_details(500, INTERNAL_DETAIL),
        }
    }
}

} // verus!
