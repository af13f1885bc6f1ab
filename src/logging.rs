//! The log output configuration, decided from the process's settings.

use vstd::prelude::*;

use crate::text::same_text;

verus! {

/// The shape of log output.
#[derive(Clone, Copy, Debug, PartialEq, Eq, Structural)]
pub enum LogFormat {
    Json,
    Pretty,
    Compact,
}

/// How logs are written.
#[derive(Debug)]
pub struct LogConfig {
    pub format: LogFormat,
    /// The filter directive, such as `info`.
    pub level: String,
    pub enable_color: bool,
    pub enable_time: bool,
    pub enable_target: bool,
    pub enable_thread: bool,
    pub enable_line_number: bool,
}

/// The filter used where none is configured.
pub const DEFAULT_LEVEL: &'static str = "info";

/// The setting is present and holds exactly `text`.
pub open spec fn setting_is(setting: Option<String>, text: Seq<char>) -> bool {
    setting matches Some(s) && s@ == text
}

fn setting_equals(setting: &Option<String>, text: &str) -> (r: bool)
    ensures
        r == setting_is(*setting, text@),
{
    match setting {
        Some(s) => same_text(s.as_str(), text),
        None => false,
    }
}

impl LogConfig {
    /// Builds the configuration from the values of `LOG_FORMAT`, `RUST_LOG`,
    /// whether `NO_COLOR` is set, `LOG_TARGET`, `LOG_THREAD` and `LOG_LINE`
    /// (`None` where unset). JSON output only for `LOG_FORMAT=json`, pretty
    /// output otherwise; the filter defaults to `info`; colour unless
    /// `NO_COLOR` is set; timestamps always; targets, threads and line
    /// numbers each only where their setting is `true`.
    pub fn from_settings(
        log_format: Option<String>,
        rust_log: Option<String>,
        no_color: bool,
        log_target: Option<String>,
        log_thread: Option<String>,
        log_line: Option<String>,
    ) -> (r: LogConfig)
        ensures
            r.format == (if setting_is(log_format, "json"@) {
                LogFormat::Json
            } else {
                LogFormat::Pretty
            }),
            r.level@ == match rust_log {
                Some(l) => l@,
                None => DEFAULT_LEVEL@,
            },
            r.enable_color == !no_color,
            r.enable_time,
            r.enable_target == setting_is(log_target, "true"@),
            r.enable_thread == setting_is(log_thread, "true"@),
            r.enable_line_number == setting_is(log_line, "true"@),
    {
        let format = if setting_equals(&log_format, "json") {
            LogFormat::Json
        } else {
            LogFormat::Pretty
        };
        let enable_target = setting_equals(&log_target, "true");
        let enable_thread = setting_equals(&log_thread, "true");
        let enable_line_number = setting_equals(&log_line, "true");
        LogConfig {
            format,
            level: match rust_log {
                Some(l) => l,
                None => String::from_str(DEFAULT_LEVEL),
            },
            enable_color: !no_color,
            enable_time: true,
            enable_target,
            enable_thread,
            enable_line_number,
        }
    }
}

} // verus!
