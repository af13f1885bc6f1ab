//! The message relay: one call that posts a text to a channel.

use vstd::prelude::*;

use crate::api::ApiCall;
use crate::decode::SlackMessageRequest;
use crate::envelope::{refusal_cause, refusal_cause_of, CallOutcome};
use crate::errors::ApiError;
use crate::reply::{answers, Reply};

verus! {

/// The call that relays a message request.
pub fn message_call(req: SlackMessageRequest) -> (r: ApiCall)
    ensures
        r == (ApiCall::PostMessage { channel: req.channel, text: req.text }),
{
    ApiCall::PostMessage { channel: req.channel, text: req.text }
}

/// `result` is what the relay makes of `outcome`: an `ok` reply gives its
/// raw text back verbatim; a refused reply or a transport failure is an
/// internal failure whose cause is the reply's error or the transport's.
pub open spec fn relays(outcome: CallOutcome, result: Result<String, ApiError>) -> bool {
    match outcome {
        CallOutcome::Replied { body, envelope } => if envelope.ok {
            result == Ok::<String, ApiError>(body)
        } else {
            result matches Err(ApiError::InternalServerError(c)) && c@ == refusal_cause(envelope)
        },
        CallOutcome::TransportFailed(cause) => result matches Err(
            ApiError::InternalServerError(c),
        ) && c@ == cause@,
    }
}

/// Decides the relay's result from the outcome of its one call.
pub fn relay_result(outcome: CallOutcome) -> (r: Result<String, ApiError>)
    ensures
        relays(outcome, r),
{
    match outcome {
        CallOutcome::Replied { body, envelope } => {
            if envelope.ok {
                Ok(body)
            } else {
                Err(ApiError::InternalServerError(refusal_cause_of(&envelope)))
            }
        },
        CallOutcome::TransportFailed(cause) => Err(ApiError::InternalServerError(cause)),
    }
}

/// A relayed message whose reply is `ok` is answered with status 200 and,
/// as body, the collaborator's reply text exactly as it came.
pub proof fn lemma_relay_success_returns_raw_reply(
    outcome: CallOutcome,
    result: Result<String, ApiError>,
    reply: Reply,
)
    requires
        outcome matches CallOutcome::Replied { envelope, .. } && envelope.ok,
        relays(outcome, result),
        answers(result, reply),
    ensures
        reply.spec_status() == 200,
        outcome matches CallOutcome::Replied { body, .. } && reply == Reply::Success(body),
{
}

} // verus!
