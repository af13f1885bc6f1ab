//! The collaborator's reply envelope `{ ok, error?, ... }` and the outcome of
//! one outbound call.

use vstd::prelude::*;

verus! {

/// The boolean member `key` of a JSON object text, as serde_json reads it;
/// `None` where the text is no JSON object or the member is missing or no
/// boolean.
pub uninterp spec fn json_bool_member(text: Seq<char>, key: Seq<char>) -> Option<bool>;

/// The string member `key` of a JSON object text, as serde_json reads it;
/// `None` where the text is no JSON object or the member is missing or no
/// string.
pub uninterp spec fn json_str_member(text: Seq<char>, key: Seq<char>) -> Option<Seq<char>>;

/// Relies on `serde_json::from_str` into a `serde_json::Value`, then
/// `Value::get` and `Value::as_bool`: depends on the two texts alone.
#[verifier::external_body]
fn bool_member(text: &str, key: &str) -> (r: Option<bool>)
    ensures
        r == json_bool_member(text@, key@),
{
    let value: serde_json::Value = serde_json::from_str(text).ok()?;
    value.get(key)?.as_bool()
}

/// Relies on `serde_json::from_str` into a `serde_json::Value`, then
/// `Value::get` and `Value::as_str`: depends on the two texts alone.
#[verifier::external_body]
fn str_member(text: &str, key: &str) -> (r: Option<String>)
    ensures
        r.deep_view() == json_str_member(text@, key@),
{
    let value: serde_json::Value = serde_json::from_str(text).ok()?;
    value.get(key)?.as_str().map(String::from)
}

/// What a reply envelope says: whether the call succeeded, the reported
/// error, and the members of an upload slot.
#[derive(Debug)]
pub struct Envelope {
    pub ok: bool,
    pub error: Option<String>,
    pub upload_url: Option<String>,
    pub file_id: Option<String>,
}

/// `e` is what the reply text `text` says. A reply whose `ok` member is not
/// the boolean `true` (missing, of another type, or no JSON at all) is a
/// failure.
pub open spec fn envelope_of(e: Envelope, text: Seq<char>) -> bool {
    &&& e.ok == (json_bool_member(text, "ok"@) == Some(true))
    &&& e.error.deep_view() == json_str_member(text, "error"@)
    &&& e.upload_url.deep_view() == json_str_member(text, "upload_url"@)
    &&& e.file_id.deep_view() == json_str_member(text, "file_id"@)
}

impl Envelope {
    /// Reads the envelope members out of a reply text.
    pub fn read(text: &str) -> (e: Envelope)
        ensures
            envelope_of(e, text@),
    {
        let ok = bool_member(text, "ok");
        Envelope {
            ok: match ok {
                Some(b) => b,
                None => false,
            },
            error: str_member(text, "error"),
            upload_url: str_member(text, "upload_url"),
            file_id: str_member(text, "file_id"),
        }
    }
}

/// The cause logged for a reply that is not `ok`: its `error` member, or a
/// fixed text where it has none.
pub open spec fn refusal_cause(e: Envelope) -> Seq<char> {
    match e.error {
        Some(m) => m@,
        None => NO_ERROR_MEMBER@,
    }
}

/// The cause logged for a refused reply without an `error` member.
pub const NO_ERROR_MEMBER: &'static str = "reply is not ok and names no error";

/// Returns the cause of a refused reply, as [`refusal_cause`] states it.
pub fn refusal_cause_of(e: &Envelope) -> (r: String)
    ensures
        r@ == refusal_cause(*e),
{
    match &e.error {
        Some(m) => m.clone(),
        None => String::from_str(NO_ERROR_MEMBER),
    }
}

/// How one outbound call ended.
#[derive(Debug)]
pub enum CallOutcome {
    /// The collaborator answered with `body`; `envelope` is what it says.
    Replied { body: String, envelope: Envelope },
    /// The call failed at the transport level; the text is the cause.
    TransportFailed(String),
}

impl CallOutcome {
    /// The outcome of a call that got the reply text `body`.
    pub fn replied(body: String) -> (r: CallOutcome)
        ensures
            r matches CallOutcome::Replied { body: b, envelope } && b == body && envelope_of(
                envelope,
                body@,
            ),
    {
        let envelope = Envelope::read(body.as_str());
        CallOutcome::Replied { body, envelope }
    }
}

} // verus!
