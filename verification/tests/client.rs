use middle_monitor_sdk::client::{
    http_status_text, message_or_status, HttpContext, OTelClient, PipelineOutcome,
};
use middle_monitor_sdk::config::{Config, LogLevel};
use middle_monitor_sdk::error::Error;
use middle_monitor_sdk::json::{read_member, read_text_member};
use middle_monitor_sdk::rate::Rate;
use middle_monitor_sdk::submission::{application_error_at, shorten_body, Submission};
use middle_monitor_sdk::telemetry::{
    Attribute, AttributeValue, Severity, SpanKind, SpanStatus,
};
use middle_monitor_sdk::{get_message_from_exception_body, new_config};

fn make_test_cfg() -> Config {
    new_config(
        "http://localhost:29999".to_string(),
        "test-svc".to_string(),
        Some("test-token".to_string()),
    )
}

fn plain_cfg(endpoint: &str) -> Config {
    new_config(endpoint.to_string(), "svc".to_string(), None)
}

fn ready(cfg: Config) -> OTelClient {
    let mut client = OTelClient::new(cfg);
    client.init(PipelineOutcome::Ready).unwrap();
    client
}

fn shown(attributes: &Vec<Attribute>) -> Vec<String> {
    attributes
        .iter()
        .map(|a| match &a.value {
            AttributeValue::Text(t) => format!("{}={}", a.key, t),
            AttributeValue::Integer(n) => format!("{}:{}", a.key, n),
            AttributeValue::Flag(b) => format!("{}?{}", a.key, b),
        })
        .collect()
}

fn text_at(submission: &Submission, key: &str) -> Option<String> {
    submission.payload.get(key).and_then(|v| v.as_str()).map(|s| s.to_string())
}

#[test]
fn get_message_empty_body() {
    assert_eq!(get_message_from_exception_body(b"", 500), "HTTP 500");
}

#[test]
fn get_message_json_with_error_field() {
    let body = br#"{"error":"db connection failed"}"#;
    assert_eq!(get_message_from_exception_body(body, 500), "db connection failed");
}

#[test]
fn get_message_json_with_empty_error_field() {
    let body = br#"{"error":""}"#;
    assert_eq!(get_message_from_exception_body(body, 502), "HTTP 502");
}

#[test]
fn get_message_json_without_error_field() {
    let body = br#"{"message":"ok"}"#;
    assert_eq!(get_message_from_exception_body(body, 503), "HTTP 503");
}

#[test]
fn get_message_invalid_json() {
    assert_eq!(get_message_from_exception_body(b"not json", 501), "HTTP 501");
}

#[test]
fn get_message_other_shapes_of_json() {
    assert_eq!(get_message_from_exception_body(br#"{"error":42}"#, 500), "HTTP 500");
    assert_eq!(get_message_from_exception_body(br#"{"error":{"error":"x"}}"#, 500), "HTTP 500");
    assert_eq!(get_message_from_exception_body(br#"["error"]"#, 500), "HTTP 500");
    assert_eq!(get_message_from_exception_body(br#""error""#, 0), "HTTP 0");
    assert_eq!(get_message_from_exception_body(br#"{"error":"a","error":"b"}"#, 500), "b");
    assert_eq!(get_message_from_exception_body(r#" {"error":"ä"} "#.as_bytes(), 500), "\u{e4}");
    assert_eq!(get_message_from_exception_body(br#"{"error":"cut off"#, 65535), "HTTP 65535");
}

#[test]
fn message_is_the_status_where_nothing_is_said() {
    assert_eq!(message_or_status(None, 404), "HTTP 404");
    assert_eq!(message_or_status(Some("".to_string()), 404), "HTTP 404");
    assert_eq!(message_or_status(Some(" ".to_string()), 404), " ");
    assert_eq!(http_status_text(0), "HTTP 0");
}

#[test]
fn otel_client_new_not_initialized() {
    let client = OTelClient::new(plain_cfg("http://localhost:8080"));
    assert!(!client.is_initialized());
    assert!(!client.has_tracer());
}

#[test]
fn otel_client_log_not_initialized_returns_error() {
    let client = OTelClient::new(plain_cfg("http://localhost:8080"));
    let result = client.log(&LogLevel::Info, "msg", None);
    assert!(result.is_err());
    assert!(matches!(result, Err(Error::NotInitialized)));
}

#[test]
fn otel_client_report_error_not_initialized_returns_error() {
    let client = OTelClient::new(plain_cfg("http://localhost:8080"));
    let result = client.report_error("err", "E", None, None, None);
    assert!(result.is_err());
    assert!(matches!(result, Err(Error::NotInitialized)));
}

#[test]
fn otel_client_flush_logs_when_not_initialized() {
    let client = OTelClient::new(plain_cfg("http://localhost:8080"));
    assert!(!client.flush_logs());
}

#[test]
fn otel_client_init_succeeds() {
    let mut client = OTelClient::new(make_test_cfg());
    let result = client.init(PipelineOutcome::Ready);
    assert!(result.is_ok());
    assert!(client.is_initialized());
    client.shutdown();
}

#[test]
fn otel_client_init_idempotent() {
    let mut client = ready(make_test_cfg());
    assert!(client.pipeline_plan().is_none());
    let result = client.init(PipelineOutcome::TracerFailed("late".to_string()));
    assert!(result.is_ok());
    assert!(client.is_initialized());
    client.shutdown();
}

#[test]
fn otel_client_init_strips_v1_traces() {
    let mut client = OTelClient::new(plain_cfg("http://localhost:29999/v1/traces"));
    let plan = client.pipeline_plan().unwrap();
    assert_eq!(plan.traces_url, "http://localhost:29999/v1/traces");
    assert_eq!(plan.logs_url, "http://localhost:29999/v1/logs");
    assert!(client.init(PipelineOutcome::Ready).is_ok());
    client.shutdown();
}

#[test]
fn otel_client_init_strips_v1_logs() {
    let mut client = OTelClient::new(plain_cfg("http://localhost:29999/v1/logs"));
    let plan = client.pipeline_plan().unwrap();
    assert_eq!(plan.traces_url, "http://localhost:29999/v1/traces");
    assert_eq!(plan.logs_url, "http://localhost:29999/v1/logs");
    assert!(client.init(PipelineOutcome::Ready).is_ok());
    client.shutdown();
}

#[test]
fn otel_client_init_without_token() {
    let mut client = OTelClient::new(plain_cfg("http://localhost:29999"));
    let plan = client.pipeline_plan().unwrap();
    assert!(plan.headers.is_empty());
    assert_eq!(plan.service, "svc");
    assert!(client.init(PipelineOutcome::Ready).is_ok());
    client.shutdown();
}

#[test]
fn pipeline_carries_the_token() {
    let client = OTelClient::new(make_test_cfg());
    let plan = client.pipeline_plan().unwrap();
    assert_eq!(
        plan.headers,
        vec![("Authorization".to_string(), "Bearer test-token".to_string())]
    );
    assert_eq!(plan.traces_url, "http://localhost:29999/v1/traces");
}

#[test]
fn pipeline_takes_out_every_signal_path() {
    let client = OTelClient::new(plain_cfg("http://h/v1/traces/x/v1/traces"));
    let plan = client.pipeline_plan().unwrap();
    assert_eq!(plan.traces_url, "http://h/x/v1/traces");
    let other = OTelClient::new(plain_cfg("http://h/v1/traces/x"));
    assert_eq!(other.pipeline_plan().unwrap().logs_url, "http://h/v1/traces/x/v1/logs");
}

#[test]
fn failed_pipeline_can_be_built_again() {
    let mut client = OTelClient::new(make_test_cfg());
    assert_eq!(
        client.init(PipelineOutcome::TracerFailed("no exporter".to_string())),
        Err("no exporter".to_string())
    );
    assert!(!client.is_initialized());
    assert!(!client.has_tracer());
    assert_eq!(
        client.init(PipelineOutcome::LoggerFailed("no logger".to_string())),
        Err("no logger".to_string())
    );
    assert!(!client.is_initialized());
    assert!(client.has_tracer());
    assert!(!client.flush_logs());
    assert!(client.log(&LogLevel::Info, "m", None).is_err());
    assert!(client.init(PipelineOutcome::Ready).is_ok());
    assert!(client.is_initialized());
}

#[test]
fn otel_client_log_all_levels() {
    let mut client = ready(make_test_cfg());
    let expected = [
        (LogLevel::Debug, Severity::Debug, "DEBUG"),
        (LogLevel::Info, Severity::Info, "INFO"),
        (LogLevel::Warn, Severity::Warn, "WARN"),
        (LogLevel::Error, Severity::Error, "ERROR"),
        (LogLevel::Fatal, Severity::Fatal, "FATAL"),
        (LogLevel::Panic, Severity::Fatal, "PANIC"),
    ];
    for (level, severity, name) in &expected {
        let result = client.log(level, "test message", None);
        assert!(result.is_ok());
        let entry = result.unwrap();
        assert_eq!(entry.severity, *severity);
        assert_eq!(entry.severity_text, *name);
        assert_eq!(entry.body, "test message");
    }
    client.shutdown();
}

#[test]
fn otel_client_log_with_attrs() {
    let mut client = ready(make_test_cfg());
    let attrs = vec![
        ("key".to_string(), "value".to_string()),
        ("other".to_string(), "".to_string()),
    ];
    let result = client.log(&LogLevel::Info, "msg", Some(&attrs));
    assert!(result.is_ok());
    assert_eq!(
        shown(&result.unwrap().attributes),
        vec!["service.name=test-svc", "key=value", "other="]
    );
    client.shutdown();
}

#[test]
fn otel_client_log_without_attrs() {
    let mut client = ready(make_test_cfg());
    let result = client.log(&LogLevel::Info, "msg", None);
    assert!(result.is_ok());
    assert_eq!(shown(&result.unwrap().attributes), vec!["service.name=test-svc"]);
    client.shutdown();
}

#[test]
fn otel_client_flush_logs_when_initialized() {
    let client = ready(make_test_cfg());
    assert!(client.flush_logs());
}

#[test]
fn otel_client_report_error_basic() {
    let mut client = ready(make_test_cfg());
    let result = client.report_error("test error", "app::E", Some("src/handler.rs"), Some(42), None);
    assert!(result.is_ok());
    let report = result.unwrap().unwrap();
    assert_eq!(report.span.name, "error.report");
    assert_eq!(report.span.kind, SpanKind::Internal);
    assert!(matches!(&report.span.status, SpanStatus::Failed(m) if m == "test error"));
    assert_eq!(
        shown(&report.span.attributes),
        vec![
            "error.message=test error",
            "error.type=app::E",
            "error.file=src/handler.rs",
            "error.line:42",
            "service.name=test-svc",
        ]
    );
    let log = report.log.unwrap();
    assert_eq!(log.severity, Severity::Error);
    assert_eq!(log.body, "test error");
    assert_eq!(
        shown(&log.attributes),
        vec![
            "service.name=test-svc",
            "error.type=app::E",
            "error.file=src/handler.rs",
            "error.line=42",
        ]
    );
    client.shutdown();
}

#[test]
fn otel_client_report_error_not_sampled() {
    let mut cfg = make_test_cfg();
    cfg.sampling.traces.percentage = Rate {
        bits: (0.0f64).to_bits(),
    };
    cfg.sampling.traces.always_sample_errors = false;
    let mut client = ready(cfg);
    let result = client.report_error("err", "E", None, None, None);
    assert!(result.is_ok());
    assert!(result.unwrap().is_none());
    client.shutdown();
}

#[test]
fn otel_client_report_error_with_http_context() {
    let mut client = ready(make_test_cfg());
    let ctx = HttpContext {
        method: Some("POST".to_string()),
        url: Some("/api/data".to_string()),
        status_code: Some(500),
        headers: Some("Content-Type: json".to_string()),
        body: Some("{}".to_string()),
    };
    let result = client.report_error("err", "E", Some("handler.rs"), Some(10), Some(&ctx));
    assert!(result.is_ok());
    let report = result.unwrap().unwrap();
    assert_eq!(
        shown(&report.span.attributes)[5..].to_vec(),
        vec!["http.method=POST", "http.url=/api/data", "http.status_code:500"]
    );
    assert_eq!(
        shown(&report.log.unwrap().attributes)[4..].to_vec(),
        vec!["http.method=POST", "http.url=/api/data", "http.status_code=500"]
    );
    client.shutdown();
}

#[test]
fn otel_client_report_error_http_context_no_method_no_url_no_status() {
    let mut client = ready(make_test_cfg());
    let ctx = HttpContext {
        method: None,
        url: None,
        status_code: None,
        headers: None,
        body: None,
    };
    let result = client.report_error("err", "E", None, None, Some(&ctx));
    assert!(result.is_ok());
    let report = result.unwrap().unwrap();
    assert_eq!(
        shown(&report.span.attributes),
        vec![
            "error.message=err",
            "error.type=E",
            "error.file=unknown",
            "error.line:0",
            "service.name=test-svc",
        ]
    );
    client.shutdown();
}

#[test]
fn error_on_a_probe_route_is_logged_for_its_status_alone() {
    let client = ready(make_test_cfg());
    let mut ctx = HttpContext {
        method: None,
        url: Some("/health".to_string()),
        status_code: Some(499),
        headers: None,
        body: None,
    };
    let report = client.report_error("err", "E", None, None, Some(&ctx)).unwrap().unwrap();
    assert!(report.log.is_none());
    ctx.status_code = Some(500);
    let report = client.report_error("err", "E", None, None, Some(&ctx)).unwrap().unwrap();
    assert!(report.log.is_some());
}

#[test]
fn report_depends_on_whether_the_trace_is_kept() {
    let client = ready(make_test_cfg());
    let left = client.report_sampled_error(false, "err", "E", None, None, None);
    assert!(left.unwrap().is_none());
    let kept = client.report_sampled_error(true, "err", "E", None, Some(u32::MAX), None);
    let report = kept.unwrap().unwrap();
    assert_eq!(shown(&report.span.attributes)[3], "error.line:4294967295");
}

#[test]
fn otel_client_submit_application_error_branches() {
    let cfg = new_config(
        "http://127.0.0.1:29998".to_string(),
        "svc".to_string(),
        Some("tok".to_string()),
    );
    let client = OTelClient::new(cfg);
    let full = client.submit_application_error(
        "err",
        "msg",
        "file.rs",
        10,
        500,
        Some("GET"),
        Some("/api"),
        Some("body"),
    );
    assert_eq!(full.url, "http://127.0.0.1:29998/api/v1/errors");
    assert_eq!(full.bearer, Some("tok".to_string()));
    assert_eq!(full.timeout_seconds, 5);
    assert_eq!(text_at(&full, "name"), Some("err".to_string()));
    assert_eq!(text_at(&full, "message"), Some("msg".to_string()));
    assert_eq!(text_at(&full, "file"), Some("file.rs".to_string()));
    assert_eq!(text_at(&full, "service"), Some("svc".to_string()));
    assert_eq!(text_at(&full, "http_method"), Some("GET".to_string()));
    assert_eq!(text_at(&full, "http_url"), Some("/api".to_string()));
    assert_eq!(text_at(&full, "http_body"), Some("body".to_string()));
    assert_eq!(full.payload.get("line").and_then(|v| v.as_i64()), Some(10));
    assert_eq!(full.payload.as_object().unwrap().len(), 9);
    let long_body = "x".repeat(2001);
    let long = client.submit_application_error(
        "err",
        "msg",
        "file.rs",
        10,
        500,
        None,
        None,
        Some(&long_body),
    );
    assert_eq!(text_at(&long, "http_body"), Some(format!("{}...", "x".repeat(2000))));
    assert_eq!(long.payload.as_object().unwrap().len(), 7);
}

#[test]
fn otel_client_submit_strips_v1_traces() {
    let client = OTelClient::new(plain_cfg("http://127.0.0.1:29998/v1/traces"));
    let s = client.submit_application_error("err", "msg", "f", 0, 500, None, None, None);
    assert_eq!(s.url, "http://127.0.0.1:29998/api/v1/errors");
}

#[test]
fn otel_client_submit_strips_v1_logs() {
    let client = OTelClient::new(plain_cfg("http://127.0.0.1:29998/v1/logs"));
    let s = client.submit_application_error("err", "msg", "f", 0, 500, None, None, None);
    assert_eq!(s.url, "http://127.0.0.1:29998/api/v1/errors");
}

#[test]
fn submission_drops_one_signal_path_at_the_end() {
    let url = |endpoint: &str| {
        let mut cfg = plain_cfg("http://h");
        cfg.endpoint = endpoint.to_string();
        application_error_at(&cfg, "n", "m", "f", 0, None, None, None, "now").url
    };
    assert_eq!(url("http://h"), "http://h/api/v1/errors");
    assert_eq!(url("http://h/v1/traces//"), "http://h/api/v1/errors");
    assert_eq!(url("http://h/v1/logs/v1/traces"), "http://h/v1/logs/api/v1/errors");
    assert_eq!(url("http://h/v1/traces/x"), "http://h/v1/traces/x/api/v1/errors");
    assert_eq!(url("/v1/logs"), "/api/v1/errors");
    assert_eq!(url("http://h/v1/metrics"), "http://h/v1/metrics/api/v1/errors");
}

#[test]
fn otel_client_submit_with_empty_token() {
    let cfg = new_config(
        "http://127.0.0.1:29998".to_string(),
        "svc".to_string(),
        Some("".to_string()),
    );
    let client = OTelClient::new(cfg);
    let s = client.submit_application_error("err", "msg", "f", 0, 500, None, None, None);
    assert_eq!(s.bearer, None);
}

#[test]
fn submission_has_the_time_of_the_call() {
    let client = OTelClient::new(plain_cfg("http://h"));
    let before = chrono::Utc::now();
    let s = client.submit_application_error("err", "msg", "f", 0, 500, None, None, None);
    let written = text_at(&s, "timestamp").unwrap();
    assert!(written.ends_with("+00:00"));
    assert_eq!(&written[4..5], "-");
    assert_eq!(&written[10..11], "T");
    let read = chrono::DateTime::parse_from_rfc3339(&written).unwrap();
    assert!(read >= before && read <= chrono::Utc::now());
}

#[test]
fn submission_at_a_given_time() {
    let s = application_error_at(
        &plain_cfg("https://h//"),
        "n",
        "m",
        "f",
        i32::MIN,
        None,
        Some("u"),
        None,
        "now",
    );
    assert_eq!(s.url, "https://h/api/v1/errors");
    assert_eq!(
        s.payload.to_string(),
        r#"{"file":"f","http_url":"u","line":-2147483648,"message":"m","name":"n","service":"svc","timestamp":"now"}"#
    );
}

#[test]
fn bodies_are_cut_at_a_whole_character() {
    let fits = "x".repeat(2000);
    assert_eq!(shorten_body(&fits), fits);
    let euro = format!("{}€", "x".repeat(1998));
    assert_eq!(shorten_body(&euro), format!("{}...", "x".repeat(1998)));
    let umlauts = "ä".repeat(1001);
    assert_eq!(shorten_body(&umlauts), format!("{}...", "ä".repeat(1000)));
}

#[test]
fn otel_client_shutdown_not_initialized() {
    let mut client = OTelClient::new(make_test_cfg());
    let plan = client.shutdown();
    assert!(!plan.tracer_provider);
    assert!(!plan.logger_provider);
}

#[test]
fn shutdown_takes_the_pipeline_down_once() {
    let mut client = ready(make_test_cfg());
    let plan = client.shutdown();
    assert!(plan.tracer_provider);
    assert!(plan.logger_provider);
    assert!(!client.is_initialized());
    assert!(client.log(&LogLevel::Info, "m", None).is_err());
    assert!(matches!(
        client.report_error("err", "E", None, None, None),
        Err(Error::NotInitialized)
    ));
    let again = client.shutdown();
    assert!(!again.tracer_provider && !again.logger_provider);
    assert!(client.init(PipelineOutcome::Ready).is_ok());
    assert!(client.is_initialized());
    assert_eq!(client.config().service, "test-svc");
}

#[test]
fn shutdown_after_a_failed_logger_stops_the_tracer() {
    let mut client = OTelClient::new(make_test_cfg());
    let _ = client.init(PipelineOutcome::LoggerFailed("x".to_string()));
    let plan = client.shutdown();
    assert!(plan.tracer_provider);
    assert!(!plan.logger_provider);
}

#[test]
fn members_of_json_values_are_read() {
    let mut members = serde_json::Map::new();
    members.insert("a".to_string(), serde_json::Value::from("text"));
    members.insert("b".to_string(), serde_json::Value::from(7));
    let value = serde_json::Value::Object(members);
    assert_eq!(read_member(&value, "a"), Some("text".to_string()));
    assert_eq!(read_member(&value, "b"), None);
    assert_eq!(read_member(&value, "c"), None);
    assert_eq!(read_member(&serde_json::Value::from("a"), "a"), None);
    assert_eq!(read_text_member(br#"{"k":"v"}"#, "k"), Some("v".to_string()));
    assert_eq!(read_text_member(b"{", "k"), None);
}
