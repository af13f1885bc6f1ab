//! The outbound calls to the collaborator's Web API, described as values:
//! which endpoint, with what arguments, and whether the credential goes
//! with it. Performing them is the caller's part.

use vstd::prelude::*;

use crate::config::Settings;

verus! {

pub const POST_MESSAGE_PATH: &'static str = "/chat.postMessage";

pub const GET_UPLOAD_URL_PATH: &'static str = "/files.getUploadURLExternal";

pub const COMPLETE_UPLOAD_PATH: &'static str = "/files.completeUploadExternal";

/// One outbound call.
#[derive(Debug)]
pub enum ApiCall {
    /// JSON POST `{ channel, text }`.
    PostMessage { channel: String, text: String },
    /// GET with the query `filename`, `length`.
    GetUploadUrl { filename: String, length: usize },
    /// POST of the raw file bytes, as `application/octet-stream`, to a URL
    /// that the collaborator handed out; only the transport outcome counts.
    UploadContent { upload_url: String },
    /// JSON POST `{ files: [{ id, title }], channel_id }`.
    CompleteUpload { file_id: String, title: String, channel_id: String },
}

/// The URL that a call goes to, given the configured base URL.
pub open spec fn call_url(base: Seq<char>, call: ApiCall) -> Seq<char> {
    match call {
        ApiCall::PostMessage { .. } => base + POST_MESSAGE_PATH@,
        ApiCall::GetUploadUrl { .. } => base + GET_UPLOAD_URL_PATH@,
        ApiCall::UploadContent { upload_url } => upload_url@,
        ApiCall::CompleteUpload { .. } => base + COMPLETE_UPLOAD_PATH@,
    }
}

impl ApiCall {
    /// Whether the bearer credential goes with the call: with every call to
    /// the Web API, and not with the push of bytes to a handed-out URL.
    pub fn carries_credential(&self) -> (r: bool)
        ensures
            r == !(self is UploadContent),
    {
        match self {
            ApiCall::UploadContent { .. } => false,
            _ => true,
        }
    }
}

impl Settings {
    /// The URL of a call: the base URL followed by the endpoint's fixed
    /// path, or the handed-out URL of a content push.
    pub fn url_for(&self, call: &ApiCall) -> (r: String)
        ensures
            r@ == call_url(self.slack_api_base_url@, *call),
    {
        match call {
            ApiCall::UploadContent { upload_url } => upload_url.clone(),
            ApiCall::PostMessage { .. } => {
                let mut url = self.slack_api_base_url.clone();
                url.append(POST_MESSAGE_PATH);
                url
            },
            ApiCall::GetUploadUrl { .. } => {
                let mut url = self.slack_api_base_url.clone();
                url.append(GET_UPLOAD_URL_PATH);
                url
            },
            ApiCall::CompleteUpload { .. } => {
                let mut url = self.slack_api_base_url.clone();
                url.append(COMPLETE_UPLOAD_PATH);
                url
            },
        }
    }
}

} // verus!
