//! What a handler answers: the collaborator's raw text with 200, or a
//! problem-details body with the failure's status.

use vstd::prelude::*;

use crate::errors::{is_problem, ApiError, ProblemDetails};

verus! {

/// A handler's answer.
#[derive(Debug)]
pub enum Reply {
    /// 200, with the collaborator's raw JSON text as an opaque JSON string.
    Success(String),
    /// The failure's status, with this body as `application/problem+json`.
    Problem(ProblemDetails),
}

impl Reply {
    pub open spec fn spec_status(&self) -> u16 {
        match self {
            Reply::Success(_) => 200,
            Reply::Problem(p) => p.status,
        }
    }

    /// The HTTP status of the answer.
    pub fn status(&self) -> (r: u16)
        ensures
            r == self.spec_status(),
    {
        match self {
            Reply::Success(_) => 200,
            Reply::Problem(p) => p.status,
        }
    }
}

/// `reply` answers `result`: a success carries its text unchanged, a
/// failure its problem body.
pub open spec fn answers(result: Result<String, ApiError>, reply: Reply) -> bool {
    match result {
        Ok(body) => reply == Reply::Success(body),
        Err(e) => reply matches Reply::Problem(p) && is_problem(p, e.spec_status(), e.spec_detail()),
    }
}

/// Turns a handler's result into its answer.
pub fn reply_for(result: Result<String, ApiError>) -> (r: Reply)
    ensures
        answers(result, r),
{
    match result {
        Ok(body) => Reply::Success(body),
        Err(e) => Reply::Problem(e.to_problem()),
    }
}

} // verus!
