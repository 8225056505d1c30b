//! Errors of an application as they are submitted: a JSON object, posted to the
//! endpoint of a service.

use vstd::prelude::*;
use vstd::string::*;
use vstd::utf8::*;

use crate::config::{Config, ConfigView};
use crate::json;
use crate::text;

verus! {

/// How many bytes of a request body are submitted.
pub const BODY_LIMIT: usize = 2000;

/// How long a submission may take.
pub const SUBMIT_TIMEOUT_SECONDS: u64 = 5;

/// The address that errors are submitted under: the endpoint without the path of
/// a signal at its end.
pub open spec fn submit_base(endpoint: Seq<char>) -> Seq<char> {
    let base = text::trim_end_of(endpoint, '/');
    if "/v1/traces"@.is_suffix_of(base) {
        base.take(base.len() - "/v1/traces"@.len())
    } else if "/v1/logs"@.is_suffix_of(base) {
        base.take(base.len() - "/v1/logs"@.len())
    } else {
        base
    }
}

/// A request body as it is submitted: what goes beyond the limit is cut off at
/// a whole character and marked.
pub open spec fn submitted_body(body: Seq<char>) -> Seq<char> {
    if encode_utf8(body).len() > BODY_LIMIT {
        text::clipped(body, BODY_LIMIT as nat) + "..."@
    } else {
        body
    }
}

/// The token that a submission carries: none where it is empty.
pub open spec fn bearer_token(token: Option<Seq<char>>) -> Option<Seq<char>> {
    match token {
        Some(t) => if t.len() > 0 {
            Some(t)
        } else {
            None
        },
        None => None,
    }
}

/// `members`, with a text under `key` where there is one.
pub open spec fn with_text(
    members: Map<Seq<char>, json::Json>,
    key: Seq<char>,
    value: Option<Seq<char>>,
) -> Map<Seq<char>, json::Json> {
    match value {
        Some(t) => members.insert(key, json::Json::Text(t)),
        None => members,
    }
}

/// An error of an application.
pub struct AppError {
    pub name: Seq<char>,
    pub message: Seq<char>,
    pub file: Seq<char>,
    pub line: i32,
    pub method: Option<Seq<char>>,
    pub url: Option<Seq<char>>,
    pub request_body: Option<Seq<char>>,
}

impl AppError {
    /// The members of the JSON object that reports the error for a service.
    pub open spec fn members(self, service: Seq<char>, timestamp: Seq<char>) -> Map<
        Seq<char>,
        json::Json,
    > {
        let base = Map::<Seq<char>, json::Json>::empty().insert(
            "name"@,
            json::Json::Text(self.name),
        ).insert("message"@, json::Json::Text(self.message)).insert(
            "file"@,
            json::Json::Text(self.file),
        ).insert("line"@, json::Json::Integer(self.line as int)).insert(
            "timestamp"@,
            json::Json::Text(timestamp),
        ).insert("service"@, json::Json::Text(service));
        let body = match self.request_body {
            Some(b) => Some(submitted_body(b)),
            None => None,
        };
        with_text(
            with_text(with_text(base, "http_method"@, self.method), "http_url"@, self.url),
            "http_body"@,
            body,
        )
    }
}

/// What `submit_application_error` was called with.
pub open spec fn app_error(
    name: &str,
    message: &str,
    file: &str,
    line: i32,
    method: Option<&str>,
    url: Option<&str>,
    request_body: Option<&str>,
) -> AppError {
    AppError {
        name: name@,
        message: message@,
        file: file@,
        line,
        method: text::opt_str(method),
        url: text::opt_str(url),
        request_body: text::opt_str(request_body),
    }
}

/// A request that submits an error.
#[derive(Debug)]
pub struct Submission {
    pub url: String,
    pub payload: serde_json::Value,
    pub bearer: Option<String>,
    pub timeout_seconds: u64,
}

/// `submission` submits an error of an application under a configuration, with
/// the given time.
pub open spec fn submits(
    submission: Submission,
    config: ConfigView,
    error: AppError,
    timestamp: Seq<char>,
) -> bool {
    &&& submission.url@ == submit_base(config.endpoint) + "/api/v1/errors"@
    &&& json::json_of(submission.payload) == json::Json::Object(
        error.members(config.service, timestamp),
    )
    &&& text::opt_text(submission.bearer) == bearer_token(config.token)
    &&& submission.timeout_seconds == SUBMIT_TIMEOUT_SECONDS
}

/// Two decimal digits stand in `t` from position `i` on.
pub open spec fn two_digits(t: Seq<char>, i: int) -> bool {
    '0' <= t[i] <= '9' && '0' <= t[i + 1] <= '9'
}

/// Month, day, hour, minute and second stand in `t` from position `i` on, as
/// RFC 3339 writes them behind the year.
pub open spec fn month_to_second(t: Seq<char>, i: int) -> bool {
    &&& t[i] == '-' && two_digits(t, i + 1)
    &&& t[i + 3] == '-' && two_digits(t, i + 4)
    &&& t[i + 6] == 'T' && two_digits(t, i + 7)
    &&& t[i + 9] == ':' && two_digits(t, i + 10)
    &&& t[i + 12] == ':' && two_digits(t, i + 13)
}

/// `t` has the form in which RFC 3339 writes a time in UTC.
pub open spec fn utc_time(t: Seq<char>) -> bool {
    &&& "+00:00"@.is_suffix_of(t)
    &&& exists|i: int| 4 <= i <= t.len() - 21 && #[trigger] month_to_second(t, i)
}

/// `chrono::Utc::now` and `chrono::DateTime::to_rfc3339`: the time of the call,
/// written as RFC 3339 has it, with the offset of UTC. Which time it is, is not
/// stated. The call panics where the system clock stands before 1970.
#[verifier::external_body]
pub(crate) fn current_time() -> (timestamp: String)
    ensures
        utc_time(timestamp@),
{
    chrono::Utc::now().to_rfc3339()
}

/// A request body as it is submitted.
pub fn shorten_body(body: &str) -> (shortened: String)
    ensures
        shortened@ == submitted_body(body@),
{
    if body.as_bytes().len() > BODY_LIMIT {
        text::clip(body, BODY_LIMIT).to_string().concat("...")
    } else {
        body.to_string()
    }
}

/// The request that submits an error of an application at the given time.
pub fn application_error_at(
    cfg: &Config,
    name: &str,
    message: &str,
    file: &str,
    line: i32,
    method: Option<&str>,
    url: Option<&str>,
    request_body: Option<&str>,
    timestamp: &str,
) -> (submission: Submission)
    ensures
        submits(
            submission,
            cfg@,
            app_error(name, message, file, line, method, url, request_body),
            timestamp@,
        ),
{
    let trimmed: &str = text::trim_end_char(cfg.endpoint.as_str(), '/');
    let base: &str = match text::strip_suffix(trimmed, "/v1/traces") {
        Some(rest) => rest,
        None => match text::strip_suffix(trimmed, "/v1/logs") {
            Some(rest) => rest,
            None => trimmed,
        },
    };
    let mut payload: serde_json::Value = json::empty_object();
    json::set_text(&mut payload, "name", name);
    json::set_text(&mut payload, "message", message);
    json::set_text(&mut payload, "file", file);
    json::set_integer(&mut payload, "line", line);
    json::set_text(&mut payload, "timestamp", timestamp);
    json::set_text(&mut payload, "service", cfg.service.as_str());
    if let Some(m) = method {
        json::set_text(&mut payload, "http_method", m);
    }
    if let Some(u) = url {
        json::set_text(&mut payload, "http_url", u);
    }
    if let Some(b) = request_body {
        json::set_text(&mut payload, "http_body", shorten_body(b).as_str());
    }
    let bearer: Option<String> = match &cfg.token {
        Some(t) => if t.as_str().is_empty() {
            None
        } else {
            Some(t.clone())
        },
        None => None,
    };
    Submission {
        url: base.to_string().concat("/api/v1/errors"),
        payload,
        bearer,
        timeout_seconds: SUBMIT_TIMEOUT_SECONDS,
    }
}

/// An endpoint that ends in the path of a signal leads to the same address as the
/// endpoint without it, which ends in no such path and in no slash.
pub proof fn submitting_ignores_the_signal_path(base: Seq<char>)
    requires
        !"/v1/traces"@.is_suffix_of(base),
        !"/v1/logs"@.is_suffix_of(base),
        base.len() > 0 ==> base.last() != '/',
    ensures
        submit_base(base) == base,
        submit_base(base + "/v1/traces"@) == base,
        submit_base(base + "/v1/logs"@) == base,
{
    let traces = "/v1/traces"@;
    let logs = "/v1/logs"@;
    reveal_strlit("/v1/traces");
    reveal_strlit("/v1/logs");
    let n = base.len() as int;
    let a = base + traces;
    assert(a.last() == 's');
    assert(traces =~= a.subrange(n, a.len() as int));
    assert(a.take(n) =~= base);
    let b = base + logs;
    assert(b.last() == 's');
    assert(logs =~= b.subrange(n, b.len() as int));
    assert(b.take(n) =~= base);
    if traces.is_suffix_of(b) {
        assert(b[b.len() - 2] == 'g');
        assert(b.subrange(b.len() - 10, b.len() as int)[8] == 'g');
        assert(traces[8] == 'e');
    }
}

/// A request body is submitted whole, or as a start of it of at most 2000 bytes
/// with three dots behind it.
pub proof fn submitted_body_is_bounded(body: Seq<char>)
    ensures
        submitted_body(body) == body && encode_utf8(body).len() <= BODY_LIMIT || (exists|k: int|
            0 <= k < body.len() && submitted_body(body) == #[trigger] body.take(k) + "..."@
                && encode_utf8(body.take(k)).len() <= BODY_LIMIT),
{
    if encode_utf8(body).len() > BODY_LIMIT {
        text::clipped_is_the_longest_fit(body, BODY_LIMIT as nat);
        let clip = text::clipped(body, BODY_LIMIT as nat);
        assert(clip =~= body.take(clip.len() as int));
        if clip.len() == body.len() {
            assert(clip =~= body);
        }
    }
}

} // verus!
