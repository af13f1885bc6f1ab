//! The error normalizer: the safety net that gives every 4xx and 5xx
//! response a problem-details body unless it already has one.

use vstd::prelude::*;

use crate::errors::{is_problem, problem_details, ProblemDetails};
use crate::status::{is_error_status, reason_or_default, reason_or_unknown};
use crate::text::{is_prefix_of, starts_with};

verus! {

/// The media type of a problem-details body.
pub const PROBLEM_CONTENT_TYPE: &'static str = "application/problem+json";

/// The response declares a problem-details body already.
pub open spec fn declares_problem_json(content_type: Option<&str>) -> bool {
    match content_type {
        Some(v) => is_prefix_of(PROBLEM_CONTENT_TYPE@, v@),
        None => false,
    }
}

/// What the normalizer does to a response.
#[derive(Debug)]
pub enum Normalization {
    /// Leave status, headers and body exactly as they are.
    PassThrough,
    /// Replace the body by this problem, served as `application/problem+json`.
    Replace(ProblemDetails),
}

/// Decides, from a response's status and declared content type, whether its
/// body is to be replaced by a problem-details body. A response that is no
/// error, or that already declares `application/problem+json`, passes
/// through untouched; any other error gets the canonical reason phrase of
/// its status as title and as detail.
pub fn normalize_response(status: u16, content_type: Option<&str>) -> (r: Normalization)
    ensures
        r is PassThrough <==> (!is_error_status(status) || declares_problem_json(content_type)),
        r matches Normalization::Replace(p) ==> is_problem(p, status, reason_or_unknown(status)),
{
    if status < 400 || status >= 600 {
        return Normalization::PassThrough;
    }
    let declared = match content_type {
        Some(v) => starts_with(v, PROBLEM_CONTENT_TYPE),
        None => false,
    };
    if declared {
        Normalization::PassThrough
    } else {
        let reason = reason_or_default(status);
        Normalization::Replace(problem_details(status, reason.as_str()))
    }
}

} // verus!
