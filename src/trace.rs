//! The request-tracing pipeline's decisions: the correlation identifier of
//! a request, the client facts worth logging, and how a finished request is
//! logged. The middleware that reads headers, times the request and writes
//! the log events drives these.

use vstd::prelude::*;

use crate::status::{class_of, classify_status, StatusClass};

verus! {

/// The correlation header, read on the way in and set on the way out.
pub const REQUEST_ID_HEADER: &'static str = "x-request-id";

/// The client address logged when no proxy header names one.
pub const UNKNOWN_CLIENT: &'static str = "unknown";

pub open spec fn is_lower_hex(c: char) -> bool {
    ('0' <= c && c <= '9') || ('a' <= c && c <= 'f')
}

pub open spec fn is_uuid_hyphen_position(i: int) -> bool {
    i == 8 || i == 13 || i == 18 || i == 23
}

/// `s` is the hyphenated lower-case text of a version-4, RFC 4122 variant
/// UUID: 36 characters, hyphens at 8, 13, 18 and 23, hex digits elsewhere,
/// version digit `4`, variant digit one of `8`, `9`, `a`, `b`.
pub open spec fn is_uuid_v4_text(s: Seq<char>) -> bool {
    &&& s.len() == 36
    &&& forall|i: int|
        0 <= i < 36 ==> if is_uuid_hyphen_position(i) {
            #[trigger] s[i] == '-'
        } else {
            is_lower_hex(s[i])
        }
    &&& s[14] == '4'
    &&& (s[19] == '8' || s[19] == '9' || s[19] == 'a' || s[19] == 'b')
}

/// A fresh random request identifier.
///
/// Relies on `uuid::Uuid::new_v4`, which sets the version and variant bits
/// of random bits, and on the `Display` of `Uuid`, which writes the
/// hyphenated lower-case form. Which identifier comes out is chance.
#[verifier::external_body]
pub fn generate_request_id() -> (r: String)
    ensures
        is_uuid_v4_text(r@),
{
    uuid::Uuid::new_v4().to_string()
}

/// The identifier of a request: the inbound header's value where it is
/// present and non-empty, kept unchanged; otherwise a fresh UUID.
pub fn resolve_request_id(inbound: Option<String>) -> (r: String)
    ensures
        inbound matches Some(s) && s@.len() > 0 ==> inbound == Some(r),
        !(inbound matches Some(s) && s@.len() > 0) ==> is_uuid_v4_text(r@),
{
    match inbound {
        Some(s) => {
            if s.as_str().unicode_len() > 0 {
                s
            } else {
                generate_request_id()
            }
        },
        None => generate_request_id(),
    }
}

/// The client address: `x-forwarded-for` if present, else `x-real-ip`, else
/// [`UNKNOWN_CLIENT`].
pub fn client_address(forwarded_for: Option<String>, real_ip: Option<String>) -> (r: String)
    ensures
        forwarded_for is Some ==> forwarded_for == Some(r),
        forwarded_for is None && real_ip is Some ==> real_ip == Some(r),
        forwarded_for is None && real_ip is None ==> r@ == UNKNOWN_CLIENT@,
{
    match forwarded_for {
        Some(f) => f,
        None => match real_ip {
            Some(r) => r,
            None => String::from_str(UNKNOWN_CLIENT),
        },
    }
}

pub open spec fn is_digit(c: char) -> bool {
    '0' <= c && c <= '9'
}

pub open spec fn digit_value(c: char) -> int {
    c as int - '0' as int
}

/// The value of a run of decimal digits.
pub open spec fn decimal_value(s: Seq<char>) -> int
    decreases s.len(),
{
    if s.len() == 0 {
        0
    } else {
        decimal_value(s.drop_last()) * 10 + digit_value(s.last())
    }
}

pub open spec fn all_digits(s: Seq<char>) -> bool {
    forall|i: int| 0 <= i < s.len() ==> is_digit(#[trigger] s[i])
}

/// The value of a `content-length` header: a non-empty run of decimal
/// digits whose value fits in 64 bits.
pub open spec fn content_length_value(s: Seq<char>) -> Option<u64> {
    if s.len() > 0 && all_digits(s) && decimal_value(s) <= u64::MAX {
        Some(decimal_value(s) as u64)
    } else {
        None
    }
}

proof fn lemma_decimal_nonnegative(s: Seq<char>)
    requires
        all_digits(s),
    ensures
        decimal_value(s) >= 0,
    decreases s.len(),
{
    if s.len() > 0 {
        assert(is_digit(s[s.len() - 1]));
        lemma_decimal_nonnegative(s.drop_last());
    }
}

proof fn lemma_decimal_prefix_grows(s: Seq<char>, i: int, j: int)
    requires
        0 <= i <= j <= s.len(),
        all_digits(s),
    ensures
        decimal_value(s.subrange(0, i)) <= decimal_value(s.subrange(0, j)),
    decreases j - i,
{
    if i < j {
        lemma_decimal_prefix_grows(s, i, j - 1);
        let t = s.subrange(0, j);
        assert(t.drop_last() =~= s.subrange(0, j - 1));
        assert(is_digit(s[j - 1]));
        lemma_decimal_nonnegative(s.subrange(0, j - 1));
    }
}

/// Parses a `content-length` header value.
pub fn parse_content_length(v: &str) -> (r: Option<u64>)
    ensures
        r == content_length_value(v@),
{
    let n = v.unicode_len();
    if n == 0 {
        return None;
    }
    let mut i: usize = 0;
    while i < n
        invariant
            n == v@.len(),
            i <= n,
            forall|j: int| 0 <= j < i ==> is_digit(#[trigger] v@[j]),
        decreases n - i,
    {
        let c = v.get_char(i);
        if !('0' <= c && c <= '9') {
            return None;
        }
        i = i + 1;
    }
    assert(all_digits(v@));
    let mut acc: u64 = 0;
    let mut k: usize = 0;
    assert(v@.subrange(0, 0) =~= Seq::<char>::empty());
    while k < n
        invariant
            n == v@.len(),
            k <= n,
            all_digits(v@),
            acc as int == decimal_value(v@.subrange(0, k as int)),
        decreases n - k,
    {
        let c = v.get_char(k);
        assert(is_digit(v@[k as int]));
        let d = (c as u32 - '0' as u32) as u64;
        assert(v@.subrange(0, k + 1).drop_last() =~= v@.subrange(0, k as int));
        match acc.checked_mul(10) {
            None => {
                proof {
                    lemma_decimal_prefix_grows(v@, k + 1, n as int);
                    assert(v@.subrange(0, n as int) =~= v@);
                }
                return None;
            },
            Some(m) => match m.checked_add(d) {
                None => {
                    proof {
                        lemma_decimal_prefix_grows(v@, k + 1, n as int);
                        assert(v@.subrange(0, n as int) =~= v@);
                    }
                    return None;
                },
                Some(next) => {
                    acc = next;
                },
            },
        }
        k = k + 1;
    }
    assert(v@.subrange(0, n as int) =~= v@);
    Some(acc)
}

/// What the pipeline records of a request on its way in.
#[derive(Debug)]
pub struct RequestTrace {
    pub request_id: String,
    pub client_ip: String,
    pub content_length: Option<u64>,
}

impl RequestTrace {
    /// Resolves the identifier and the client facts of a request from its
    /// `x-request-id`, `x-forwarded-for`, `x-real-ip` and `content-length`
    /// headers (each `None` where absent or not text). A `content-length`
    /// that is no decimal number is left out.
    pub fn begin(
        inbound_id: Option<String>,
        forwarded_for: Option<String>,
        real_ip: Option<String>,
        content_length: Option<String>,
    ) -> (r: RequestTrace)
        ensures
            inbound_id matches Some(s) && s@.len() > 0 ==> inbound_id == Some(r.request_id),
            !(inbound_id matches Some(s) && s@.len() > 0) ==> is_uuid_v4_text(r.request_id@),
            forwarded_for is Some ==> forwarded_for == Some(r.client_ip),
            forwarded_for is None && real_ip is Some ==> real_ip == Some(r.client_ip),
            forwarded_for is None && real_ip is None ==> r.client_ip@ == UNKNOWN_CLIENT@,
            r.content_length == match content_length {
                Some(v) => content_length_value(v@),
                None => None,
            },
    {
        let content_length = match &content_length {
            Some(v) => parse_content_length(v.as_str()),
            None => None,
        };
        RequestTrace {
            request_id: resolve_request_id(inbound_id),
            client_ip: client_address(forwarded_for, real_ip),
            content_length,
        }
    }
}

/// The level of a log event.
#[derive(Clone, Copy, Debug, PartialEq, Eq, Structural)]
pub enum LogLevel {
    Info,
    Warn,
    Error,
}

/// The level that a finished request is logged at: info for success and
/// redirect, warning for a client error, error for a server error, warning
/// for anything else.
pub open spec fn level_of(class: StatusClass) -> LogLevel {
    match class {
        StatusClass::Success => LogLevel::Info,
        StatusClass::Redirect => LogLevel::Info,
        StatusClass::ClientError => LogLevel::Warn,
        StatusClass::ServerError => LogLevel::Error,
        StatusClass::Other => LogLevel::Warn,
    }
}

/// How a finished request is logged.
#[derive(Debug)]
pub struct ResponseLog {
    pub level: LogLevel,
    pub message: &'static str,
}

/// Decides how to log a request that finished with `status`.
pub fn response_log(status: u16) -> (r: ResponseLog)
    ensures
        r.level == level_of(class_of(status)),
        class_of(status) == StatusClass::Success ==> r.message@ == "Request completed"@,
        class_of(status) == StatusClass::Redirect ==> r.message@ == "Request redirected"@,
        class_of(status) == StatusClass::ClientError ==> r.message@ == "Client error"@,
        class_of(status) == StatusClass::ServerError ==> r.message@ == "Server error"@,
        class_of(status) == StatusClass::Other ==> r.message@ == "Unexpected status"@,
{
    match classify_status(status) {
        StatusClass::Success => ResponseLog { level: LogLevel::Info, message: "Request completed" },
        StatusClass::Redirect => ResponseLog {
            level: LogLevel::Info,
            message: "Request redirected",
        },
        StatusClass::ClientError => ResponseLog { level: LogLevel::Warn, message: "Client error" },
        StatusClass::ServerError => ResponseLog { level: LogLevel::Error, message: "Server error" },
        StatusClass::Other => ResponseLog { level: LogLevel::Warn, message: "Unexpected status" },
    }
}

} // verus!
