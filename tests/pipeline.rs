use slack_relay::api::ApiCall;
use slack_relay::config::{SettingError, Settings};
use slack_relay::decode::{decode_upload, SlackFileUploadRequest};
use slack_relay::envelope::Envelope;
use slack_relay::errors::{problem_details, ApiError};
use slack_relay::logging::{LogConfig, LogFormat};
use slack_relay::normalize::{normalize_response, Normalization};
use slack_relay::status::{classify_status, reason_or_default, StatusClass};
use slack_relay::trace::{
    client_address, generate_request_id, parse_content_length, resolve_request_id,
    response_log, LogLevel, RequestTrace,
};

fn is_uuid_v4_text(s: &str) -> bool {
    let chars: Vec<char> = s.chars().collect();
    if chars.len() != 36 {
        return false;
    }
    for (i, c) in chars.iter().enumerate() {
        let ok = if [8, 13, 18, 23].contains(&i) {
            *c == '-'
        } else {
            c.is_ascii_digit() || ('a'..='f').contains(c)
        };
        if !ok {
            return false;
        }
    }
    chars[14] == '4' && ['8', '9', 'a', 'b'].contains(&chars[19])
}

#[test]
fn inbound_request_id_is_echoed_unchanged() {
    let id = resolve_request_id(Some("req-42 abc".to_string()));
    assert_eq!(id, "req-42 abc");
}

#[test]
fn missing_request_id_gets_fresh_distinct_uuids() {
    let a = resolve_request_id(None);
    let b = resolve_request_id(None);
    assert!(is_uuid_v4_text(&a), "{}", a);
    assert!(is_uuid_v4_text(&b), "{}", b);
    assert_ne!(a, b);
}

#[test]
fn empty_request_id_is_replaced() {
    let id = resolve_request_id(Some(String::new()));
    assert!(is_uuid_v4_text(&id), "{}", id);
}

#[test]
fn generated_request_id_is_a_v4_uuid() {
    assert!(is_uuid_v4_text(&generate_request_id()));
}

#[test]
fn client_address_prefers_forwarded_for() {
    assert_eq!(
        client_address(Some("10.0.0.1".to_string()), Some("10.0.0.2".to_string())),
        "10.0.0.1"
    );
    assert_eq!(client_address(None, Some("10.0.0.2".to_string())), "10.0.0.2");
    assert_eq!(client_address(None, None), "unknown");
}

#[test]
fn content_length_values() {
    assert_eq!(parse_content_length("42"), Some(42));
    assert_eq!(parse_content_length("0"), Some(0));
    assert_eq!(parse_content_length(""), None);
    assert_eq!(parse_content_length("4x"), None);
    assert_eq!(parse_content_length("-1"), None);
    assert_eq!(parse_content_length("18446744073709551615"), Some(u64::MAX));
    assert_eq!(parse_content_length("18446744073709551616"), None);
}

#[test]
fn request_trace_collects_headers() {
    let trace = RequestTrace::begin(
        Some("abc".to_string()),
        None,
        Some("192.168.1.9".to_string()),
        Some("17".to_string()),
    );
    assert_eq!(trace.request_id, "abc");
    assert_eq!(trace.client_ip, "192.168.1.9");
    assert_eq!(trace.content_length, Some(17));
}

#[test]
fn status_classes_and_log_levels() {
    assert_eq!(classify_status(200), StatusClass::Success);
    assert_eq!(classify_status(302), StatusClass::Redirect);
    assert_eq!(classify_status(404), StatusClass::ClientError);
    assert_eq!(classify_status(503), StatusClass::ServerError);
    assert_eq!(classify_status(101), StatusClass::Other);
    assert_eq!(response_log(200).level, LogLevel::Info);
    assert_eq!(response_log(200).message, "Request completed");
    assert_eq!(response_log(301).level, LogLevel::Info);
    assert_eq!(response_log(400).level, LogLevel::Warn);
    assert_eq!(response_log(500).level, LogLevel::Error);
    assert_eq!(response_log(500).message, "Server error");
    assert_eq!(response_log(101).level, LogLevel::Warn);
    assert_eq!(response_log(101).message, "Unexpected status");
}

#[test]
fn reason_phrases() {
    assert_eq!(reason_or_default(400), "Bad Request");
    assert_eq!(reason_or_default(404), "Not Found");
    assert_eq!(reason_or_default(500), "Internal Server Error");
    assert_eq!(reason_or_default(599), "Unknown Error");
    assert_eq!(reason_or_default(42), "Unknown Error");
}

#[test]
fn problem_body_passes_through_normalizer() {
    let r = normalize_response(400, Some("application/problem+json"));
    assert!(matches!(r, Normalization::PassThrough));
    let r = normalize_response(500, Some("application/problem+json; charset=utf-8"));
    assert!(matches!(r, Normalization::PassThrough));
}

#[test]
fn success_passes_through_normalizer() {
    assert!(matches!(normalize_response(200, Some("text/plain")), Normalization::PassThrough));
    assert!(matches!(normalize_response(302, None), Normalization::PassThrough));
}

#[test]
fn plain_error_is_replaced_by_problem() {
    match normalize_response(415, Some("text/plain; charset=utf-8")) {
        Normalization::Replace(p) => {
            assert_eq!(p.problem_type, "about:blank");
            assert_eq!(p.title, "Unsupported Media Type");
            assert_eq!(p.status, 415);
            assert_eq!(p.detail, "Unsupported Media Type");
        }
        Normalization::PassThrough => panic!("a plain 415 must be normalized"),
    }
    match normalize_response(404, None) {
        Normalization::Replace(p) => assert_eq!(p.title, "Not Found"),
        Normalization::PassThrough => panic!("a bare 404 must be normalized"),
    }
}

#[test]
fn api_errors_as_problems() {
    let p = ApiError::BadRequest("missing field `channel`".to_string()).to_problem();
    assert_eq!(p.status, 400);
    assert_eq!(p.title, "Bad Request");
    assert_eq!(p.detail, "missing field `channel`");
    let p = ApiError::InternalServerError("invalid_auth".to_string()).to_problem();
    assert_eq!(p.status, 500);
    assert_eq!(p.title, "Internal Server Error");
    assert_eq!(p.detail, "Internal Server Error");
    let p = problem_details(503, "down");
    assert_eq!(p.title, "Service Unavailable");
}

#[test]
fn valid_base64_decodes_to_bytes() {
    let req = SlackFileUploadRequest {
        file_name: "a.bin".to_string(),
        file_data_base64: "AAH/".to_string(),
        channel: "C1".to_string(),
    };
    let file = decode_upload(req).unwrap();
    assert_eq!(file.bytes, vec![0u8, 1, 255]);
    assert_eq!(file.file_name, "a.bin");
    assert_eq!(file.channel, "C1");
}

#[test]
fn empty_base64_is_an_empty_file() {
    let req = SlackFileUploadRequest {
        file_name: "empty".to_string(),
        file_data_base64: String::new(),
        channel: "C1".to_string(),
    };
    assert!(decode_upload(req).unwrap().bytes.is_empty());
}

#[test]
fn unpadded_base64_is_refused() {
    let req = SlackFileUploadRequest {
        file_name: "x".to_string(),
        file_data_base64: "aGVsbG8".to_string(),
        channel: "C1".to_string(),
    };
    match decode_upload(req) {
        Err(ApiError::BadRequest(m)) => assert_eq!(m, "Failed to decode base64 file data"),
        other => panic!("unexpected {:?}", other),
    }
}

#[test]
fn envelope_members_are_read() {
    let e = Envelope::read("{\"ok\":false,\"error\":\"invalid_auth\"}");
    assert!(!e.ok);
    assert_eq!(e.error.as_deref(), Some("invalid_auth"));
    assert_eq!(e.upload_url, None);
    let e = Envelope::read("{\"ok\":true,\"file_id\":\"F1\",\"upload_url\":\"https://u/F1\"}");
    assert!(e.ok);
    assert_eq!(e.file_id.as_deref(), Some("F1"));
    assert_eq!(e.upload_url.as_deref(), Some("https://u/F1"));
    let e = Envelope::read("not json");
    assert!(!e.ok);
    let e = Envelope::read("{\"ok\":\"true\"}");
    assert!(!e.ok);
}

#[test]
fn settings_need_a_credential() {
    match Settings::new(None, None) {
        Err(SettingError::MissingEnvVar(name)) => assert_eq!(name, "SLACK_BOT_TOKEN"),
        Ok(_) => panic!("settings without a credential"),
    }
}

#[test]
fn settings_strip_trailing_slashes() {
    let s = Settings::new(Some("xoxb".to_string()), Some("http://127.0.0.1:8080/api//".to_string()))
        .unwrap();
    assert_eq!(s.slack_bot_token, "xoxb");
    assert_eq!(s.slack_api_base_url, "http://127.0.0.1:8080/api");
    let s = Settings::new(Some("xoxb".to_string()), None).unwrap();
    assert_eq!(s.slack_api_base_url, "https://slack.com/api");
}

#[test]
fn call_urls_and_credentials() {
    let s = Settings::new(Some("t".to_string()), Some("http://h/api/".to_string())).unwrap();
    let post = ApiCall::PostMessage { channel: "C".to_string(), text: "x".to_string() };
    assert_eq!(s.url_for(&post), "http://h/api/chat.postMessage");
    assert!(post.carries_credential());
    let slot = ApiCall::GetUploadUrl { filename: "f".to_string(), length: 3 };
    assert_eq!(s.url_for(&slot), "http://h/api/files.getUploadURLExternal");
    let push = ApiCall::UploadContent { upload_url: "https://files/u/1".to_string() };
    assert_eq!(s.url_for(&push), "https://files/u/1");
    assert!(!push.carries_credential());
    let done = ApiCall::CompleteUpload {
        file_id: "F".to_string(),
        title: "f".to_string(),
        channel_id: "C".to_string(),
    };
    assert_eq!(s.url_for(&done), "http://h/api/files.completeUploadExternal");
}

#[test]
fn log_config_from_settings() {
    let c = LogConfig::from_settings(Some("json".to_string()), None, true, Some("true".to_string()), None, Some("yes".to_string()));
    assert_eq!(c.format, LogFormat::Json);
    assert_eq!(c.level, "info");
    assert!(!c.enable_color);
    assert!(c.enable_time);
    assert!(c.enable_target);
    assert!(!c.enable_thread);
    assert!(!c.enable_line_number);
    let c = LogConfig::from_settings(Some("JSON".to_string()), Some("debug".to_string()), false, None, None, None);
    assert_eq!(c.format, LogFormat::Pretty);
    assert_eq!(c.level, "debug");
    assert!(c.enable_color);
}
