//! Settings: the credential and the collaborator's base URL, fixed at start.

use vstd::prelude::*;

use crate::text::{trim_trailing_slashes, without_trailing_slashes};

verus! {

/// The variable that holds the bearer credential.
pub const TOKEN_VARIABLE: &'static str = "SLACK_BOT_TOKEN";

/// The base URL used where none is configured.
pub const DEFAULT_API_BASE_URL: &'static str = "https://slack.com/api";

/// Immutable after start; shared read-only by every request.
#[derive(Debug)]
pub struct Settings {
    pub slack_bot_token: String,
    /// Without a trailing slash.
    pub slack_api_base_url: String,
}

/// A startup failure: the configuration lacks a required value.
#[derive(Debug)]
pub enum SettingError {
    MissingEnvVar(String),
}

impl Settings {
    /// Builds the settings from the configured values. Without a credential
    /// this fails, naming [`TOKEN_VARIABLE`]; a missing base URL falls back
    /// to [`DEFAULT_API_BASE_URL`], and trailing slashes are stripped.
    pub fn new(slack_bot_token: Option<String>, slack_api_base_url: Option<String>) -> (r: Result<
        Settings,
        SettingError,
    >)
        ensures
            r is Ok <==> slack_bot_token is Some,
            r matches Err(SettingError::MissingEnvVar(name)) ==> name@ == TOKEN_VARIABLE@,
            r matches Ok(s) ==> {
                &&& slack_bot_token == Some(s.slack_bot_token)
                &&& s.slack_api_base_url@ == without_trailing_slashes(
                    match slack_api_base_url {
                        Some(u) => u@,
                        None => DEFAULT_API_BASE_URL@,
                    },
                )
            },
    {
        match slack_bot_token {
            None => Err(SettingError::MissingEnvVar(String::from_str(TOKEN_VARIABLE))),
            Some(token) => {
                let base = match &slack_api_base_url {
                    Some(u) => trim_trailing_slashes(u.as_str()),
                    None => trim_trailing_slashes(DEFAULT_API_BASE_URL),
                };
                Ok(Settings { slack_bot_token: token, slack_api_base_url: base })
            },
        }
    }
}

} // verus!
