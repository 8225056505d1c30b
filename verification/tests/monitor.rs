use middle_monitor_sdk::client::PipelineOutcome;
use middle_monitor_sdk::config::{Config, LogLevel};
use middle_monitor_sdk::error::Error;
use middle_monitor_sdk::monitor::{PanicNotice, PanicPayload};
use middle_monitor_sdk::telemetry::{Attribute, AttributeValue, SpanStatus};
use middle_monitor_sdk::{new_config, MiddleMonitorClient};

fn make_cfg() -> Config {
    new_config(
        "http://localhost:29997".to_string(),
        "test-service".to_string(),
        Some("test-token".to_string()),
    )
}

fn make_client() -> MiddleMonitorClient {
    MiddleMonitorClient::new(make_cfg(), PipelineOutcome::Ready).0
}

fn find(attributes: &Vec<Attribute>, key: &str) -> Option<String> {
    attributes.iter().find(|a| a.key == key).map(|a| match &a.value {
        AttributeValue::Text(t) => t.clone(),
        AttributeValue::Integer(n) => n.to_string(),
        AttributeValue::Flag(b) => b.to_string(),
    })
}

fn failed_with(status: &SpanStatus, message: &str) -> bool {
    match status {
        SpanStatus::Failed(m) => m == message,
        SpanStatus::Succeeded => false,
    }
}

#[test]
fn client_creation() {
    let client = make_client();
    assert_eq!(client.config.service, "test-service");
    assert_eq!(client.config().endpoint, "http://localhost:29997");
    assert!(client.is_initialized());
}

#[test]
fn client_creation_init_warning() {
    let cfg = new_config("http://localhost:29997".to_string(), "svc".to_string(), None);
    let (client, warning) =
        MiddleMonitorClient::new(cfg, PipelineOutcome::TracerFailed("no runtime".to_string()));
    assert_eq!(client.config.service, "svc");
    assert!(!client.is_initialized());
    assert_eq!(
        warning,
        Some(
            "[Middle-Monitor] Warning: failed to initialize OpenTelemetry client: no runtime"
                .to_string()
        )
    );
    let (_, quiet) = MiddleMonitorClient::new(make_cfg(), PipelineOutcome::Ready);
    assert_eq!(quiet, None);
}

#[test]
fn client_set_token_not_exposed_directly() {
    let mut cfg = make_cfg();
    cfg.token = Some("newtoken".to_string());
    let client = MiddleMonitorClient::new(cfg, PipelineOutcome::Ready).0;
    assert_eq!(client.config.token, Some("newtoken".to_string()));
}

#[test]
fn report_error_returns_ok_for_framework_path() {
    let client = make_client();
    let result = client.report_error(
        "test error",
        Some("/.cargo/registry/src/lib.rs".to_string()),
        Some(10),
        "T",
    );
    assert!(result.is_ok());
    assert!(result.unwrap().is_none());
}

#[test]
fn report_error_returns_ok_for_empty_file() {
    let client = make_client();
    let result = client.report_error("test error", Some("".to_string()), Some(10), "T");
    assert!(result.is_ok());
    assert!(result.unwrap().is_none());
}

#[test]
fn report_error_returns_ok_for_test_file() {
    let client = make_client();
    let result = client.report_error("err", Some("src/handler_test.rs".to_string()), Some(5), "T");
    assert!(result.is_ok());
    assert!(result.unwrap().is_none());
}

#[test]
fn report_error_returns_ok_for_gen_file() {
    let client = make_client();
    let result = client.report_error("err", Some("src/proto.gen.rs".to_string()), Some(5), "T");
    assert!(result.is_ok());
    assert!(result.unwrap().is_none());
}

#[test]
fn report_error_user_file() {
    let client = make_client();
    let result = client.report_error("user error", Some("src/handler.rs".to_string()), Some(42), "T");
    assert!(result.is_ok());
    let report = result.unwrap().unwrap();
    assert!(failed_with(&report.span.status, "user error"));
    assert_eq!(find(&report.span.attributes, "error.file"), Some("src/handler.rs".to_string()));
    assert_eq!(find(&report.span.attributes, "error.line"), Some("42".to_string()));
    assert_eq!(find(&report.span.attributes, "error.type"), Some("T".to_string()));
}

#[test]
fn report_error_no_file() {
    let client = make_client();
    let result = client.report_error("err", None, None, "T");
    assert!(result.is_ok());
    let report = result.unwrap().unwrap();
    assert_eq!(find(&report.span.attributes, "error.file"), Some("unknown".to_string()));
    assert_eq!(find(&report.span.attributes, "error.line"), Some("0".to_string()));
}

#[test]
fn files_of_others_are_told_apart() {
    let client = make_client();
    for file in [
        "/home/u/.cargo/registry/a.rs",
        "/rustc/abc/library/core/src/a.rs",
        "x/target/debug/a.rs",
        "x/vendor/a.rs",
        "x/node_modules/a.js",
        "libstd/a.rs",
        "libcore/a.rs",
        "liballoc/a.rs",
        "a_test.rs",
        "a.gen.rs",
        "",
    ] {
        assert!(!client.is_application_error(file), "{}", file);
    }
    for file in ["src/a.rs", "unknown", "target/a.rs", ".cargo/a.rs", "a_test.r", "genrs"] {
        assert!(client.is_application_error(file), "{}", file);
    }
}

#[test]
fn negative_lines_keep_their_bits() {
    let client = make_client();
    let report = client.report_error("e", Some("a.rs".to_string()), Some(-1), "T").unwrap().unwrap();
    assert_eq!(find(&report.span.attributes, "error.line"), Some("4294967295".to_string()));
    let report = client.report_error("e", Some("a.rs".to_string()), Some(i32::MIN), "T").unwrap().unwrap();
    assert_eq!(find(&report.span.attributes, "error.line"), Some("2147483648".to_string()));
}

#[test]
fn report_custom_error_framework_path() {
    let client = make_client();
    let result = client.report_custom_error("DBError", "conn failed", "/.cargo/lib.rs", 10, "T");
    assert!(result.is_ok());
    assert!(result.unwrap().is_none());
}

#[test]
fn report_custom_error_user_path() {
    let client = make_client();
    let result = client.report_custom_error("APIError", "timeout", "src/api.rs", 99, "T");
    assert!(result.is_ok());
    let report = result.unwrap().unwrap();
    assert!(failed_with(&report.span.status, "APIError: timeout"));
    assert_eq!(report.log.unwrap().body, "APIError: timeout");
}

#[test]
fn report_custom_error_with_http_framework_path() {
    let client = make_client();
    let result = client.report_custom_error_with_http(
        "E",
        "msg",
        "/.cargo/lib.rs",
        0,
        None,
        None,
        None,
        None,
        "T",
    );
    assert!(result.is_ok());
    assert!(result.unwrap().is_none());
}

#[test]
fn report_custom_error_with_http_user_path() {
    let client = make_client();
    let result = client.report_custom_error_with_http(
        "APIError",
        "timeout",
        "src/api.rs",
        10,
        Some("POST"),
        Some("/api/data"),
        Some("Content-Type: json"),
        Some("{}"),
        "T",
    );
    assert!(result.is_ok());
    let report = result.unwrap().unwrap();
    assert_eq!(find(&report.span.attributes, "http.method"), Some("POST".to_string()));
    assert_eq!(find(&report.span.attributes, "http.url"), Some("/api/data".to_string()));
    assert_eq!(find(&report.span.attributes, "http.status_code"), None);
    assert_eq!(find(&report.span.attributes, "error.line"), Some("10".to_string()));
}

#[test]
fn capture_panic_with_str_payload() {
    let client = make_client();
    let notice = PanicNotice {
        file: Some("src/lib.rs".to_string()),
        line: Some(440),
        payload: PanicPayload::Message("str payload".to_string()),
    };
    let report = client.capture_panic(&notice, "T").unwrap().unwrap();
    assert!(failed_with(&report.span.status, "Panic: str payload"));
    assert_eq!(find(&report.span.attributes, "error.file"), Some("src/lib.rs".to_string()));
    assert_eq!(find(&report.span.attributes, "error.line"), Some("440".to_string()));
}

#[test]
fn capture_panic_with_string_payload() {
    let client = make_client();
    let notice = PanicNotice {
        file: Some("/.cargo/registry/a.rs".to_string()),
        line: Some(1),
        payload: PanicPayload::Message("owned string payload".to_string()),
    };
    // Panics are reported from every file.
    let report = client.capture_panic(&notice, "T").unwrap().unwrap();
    assert!(failed_with(&report.span.status, "Panic: owned string payload"));
}

#[test]
fn capture_panic_with_unknown_payload_type() {
    let client = make_client();
    let notice = PanicNotice {
        file: None,
        line: None,
        payload: PanicPayload::Unknown,
    };
    let report = client.capture_panic(&notice, "T").unwrap().unwrap();
    assert!(failed_with(&report.span.status, "Panic: Panic occurred"));
    assert_eq!(find(&report.span.attributes, "error.file"), Some("unknown".to_string()));
    assert_eq!(find(&report.span.attributes, "error.line"), Some("0".to_string()));
}

#[test]
fn log_all_levels() {
    let client = make_client();
    for level in &[
        LogLevel::Debug,
        LogLevel::Info,
        LogLevel::Warn,
        LogLevel::Error,
        LogLevel::Fatal,
        LogLevel::Panic,
    ] {
        assert_eq!(client.log(level, "msg", None).unwrap().severity_text, level.as_str());
    }
}

#[test]
fn log_with_attrs() {
    let client = make_client();
    let attrs = vec![("k".to_string(), "v".to_string())];
    let entry = client.log(&LogLevel::Info, "msg", Some(&attrs)).unwrap();
    assert_eq!(find(&entry.attributes, "k"), Some("v".to_string()));
    assert_eq!(find(&entry.attributes, "service.name"), Some("test-service".to_string()));
}

#[test]
fn flush_logs_does_not_panic() {
    assert!(make_client().flush_logs());
}

#[test]
fn submit_application_error_all_params() {
    let client = make_client();
    let s = client.submit_application_error(
        "err",
        "msg",
        "f.rs",
        10,
        500,
        Some("GET"),
        Some("/api"),
        Some("body"),
    );
    assert_eq!(s.payload.as_object().unwrap().len(), 9);
    assert_eq!(s.bearer, Some("test-token".to_string()));
}

#[test]
fn submit_application_error_minimal() {
    let client = make_client();
    let s = client.submit_application_error("err", "msg", "f.rs", 0, 500, None, None, None);
    assert_eq!(s.payload.as_object().unwrap().len(), 6);
}

#[test]
fn shutdown_does_not_panic() {
    let mut client = make_client();
    let plan = client.shutdown();
    assert!(plan.tracer_provider && plan.logger_provider);
    assert!(matches!(client.log(&LogLevel::Info, "m", None), Err(Error::NotInitialized)));
    // Errors in files of others are passed over before the client is asked.
    assert!(client.report_error("e", Some("libstd".to_string()), None, "T").is_ok());
    assert!(client.report_error("e", Some("a.rs".to_string()), None, "T").is_err());
}
