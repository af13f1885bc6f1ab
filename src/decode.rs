//! The request decoder: inbound payloads, and the base64 decoding of an
//! upload's file data, which happens before any outbound call.

use vstd::prelude::*;

use crate::errors::ApiError;

verus! {

/// The body of `POST /slack/message`.
#[derive(Debug)]
pub struct SlackMessageRequest {
    pub channel: String,
    pub text: String,
}

/// The body of `POST /slack/upload_base64`.
#[derive(Debug)]
pub struct SlackFileUploadRequest {
    pub file_name: String,
    pub file_data_base64: String,
    pub channel: String,
}

/// An upload whose file data was decoded; its length is known before any
/// network call.
#[derive(Debug)]
pub struct DecodedFile {
    pub file_name: String,
    pub bytes: Vec<u8>,
    pub channel: String,
}

/// The detail of every failed base64 decoding; the decoder's own error text
/// is never shown.
pub const BASE64_FAILURE: &'static str = "Failed to decode base64 file data";

/// base64's decoding error, carried as an opaque value.
#[verifier::external_type_specification]
#[verifier::external_body]
pub struct ExDecodeError(base64::DecodeError);

/// The bytes that base64's standard engine (standard alphabet, canonical
/// padding required) decodes a text to, or `None` where it refuses it.
pub uninterp spec fn base64_decoded(text: Seq<char>) -> Option<Seq<u8>>;

/// Relies on `base64::engine::general_purpose::STANDARD` and its
/// `Engine::decode`: the outcome depends on the text alone.
#[verifier::external_body]
fn decode_standard(text: &str) -> (r: Result<Vec<u8>, base64::DecodeError>)
    ensures
        r is Ok <==> base64_decoded(text@) is Some,
        r matches Ok(bytes) ==> base64_decoded(text@) == Some(bytes@),
{
    base64::Engine::decode(&base64::engine::general_purpose::STANDARD, text)
}

/// Decodes an upload request's file data. Invalid base64 is a bad request
/// with the fixed detail [`BASE64_FAILURE`]; otherwise the file keeps the
/// request's name and channel and carries the decoded bytes.
pub fn decode_upload(req: SlackFileUploadRequest) -> (r: Result<DecodedFile, ApiError>)
    ensures
        r is Ok <==> base64_decoded(req.file_data_base64@) is Some,
        r matches Ok(f) ==> {
            &&& f.file_name == req.file_name
            &&& f.channel == req.channel
            &&& base64_decoded(req.file_data_base64@) == Some(f.bytes@)
        },
        r matches Err(e) ==> e matches ApiError::BadRequest(m) && m@ == BASE64_FAILURE@,
{
    match decode_standard(req.file_data_base64.as_str()) {
        Ok(bytes) => Ok(DecodedFile { file_name: req.file_name, bytes, channel: req.channel }),
        Err(_) => Err(ApiError::BadRequest(String::from_str(BASE64_FAILURE))),
    }
}

} // verus!
