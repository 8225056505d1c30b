use middle_monitor_sdk::axum_middleware::{
    body_read, middleware, report_plan, request_route, request_started, span_attributes, Action,
    Event, ReportPlan, RequestTrace, SpanAction, Stage,
};
use middle_monitor_sdk::client::PipelineOutcome;
use middle_monitor_sdk::config::Config;
use middle_monitor_sdk::rate::Rate;
use middle_monitor_sdk::telemetry::{Attribute, AttributeValue, SpanKind, SpanStatus};
use middle_monitor_sdk::{new_config, MiddleMonitorClient};

fn cfg_with(percentage: f64) -> Config {
    let mut cfg = new_config("http://h".to_string(), "svc".to_string(), Some("t".to_string()));
    cfg.sampling.traces.percentage = Rate {
        bits: percentage.to_bits(),
    };
    cfg
}

fn shown(attributes: &Vec<Attribute>) -> Vec<String> {
    attributes
        .iter()
        .map(|a| match &a.value {
            AttributeValue::Text(t) => format!("{}={}", a.key, t),
            AttributeValue::Integer(n) => format!("{}:{}", a.key, n),
            AttributeValue::Flag(b) => format!("{}?{}", a.key, b),
        })
        .collect()
}

fn request(sampled: bool) -> RequestTrace {
    RequestTrace {
        method: "GET".to_string(),
        route: "/users/:id".to_string(),
        url: "/users/7?x=1".to_string(),
        sampled,
    }
}

fn client_with(percentage: f64) -> MiddleMonitorClient {
    MiddleMonitorClient::new(cfg_with(percentage), PipelineOutcome::Ready).0
}

fn arrived(route: &str) -> Event {
    Event::Arrived {
        method: "GET".to_string(),
        matched: Some(route.to_string()),
        path: "/path".to_string(),
        url: "/path?q".to_string(),
    }
}

fn answered(status: u16, content_length: Option<&str>) -> Event {
    Event::Answered {
        status,
        content_length: content_length.map(|l| l.to_string()),
    }
}

#[test]
fn passes_through_2xx_untouched() {
    let client = client_with(1.0);
    let (stage, action) = middleware(&client, Stage::Waiting, arrived("/ok"));
    assert!(matches!(action, Action::Serve { open: Some(_) }));
    let (stage, action) = middleware(&client, stage, answered(200, Some("2")));
    assert!(matches!(stage, Stage::Finished));
    match action {
        Action::PassOn {
            span: SpanAction::Finish { attributes, status },
            report,
        } => {
            assert_eq!(shown(&attributes), vec!["http.status_code:200", "error?false"]);
            assert!(matches!(status, SpanStatus::Succeeded));
            assert!(report.is_none());
        }
        _ => panic!("a success is passed on as it is"),
    }
}

#[test]
fn preserves_5xx_body_after_buffering() {
    let body = r#"{"error":"db down"}"#;
    let client = client_with(1.0);
    let (stage, _) = middleware(&client, Stage::Waiting, arrived("/fail"));
    let (stage, action) = middleware(&client, stage, answered(500, Some(&body.len().to_string())));
    assert!(matches!(action, Action::ReadBody { .. }));
    let read = Event::BodyRead(Some(body.as_bytes().to_vec()));
    let (_, action) = middleware(&client, stage, read);
    match action {
        Action::Reply {
            body: passed_on,
            submission,
        } => {
            assert_eq!(passed_on, body.as_bytes().to_vec());
            assert_eq!(
                submission.payload.get("message").and_then(|v| v.as_str()),
                Some("db down")
            );
        }
        _ => panic!("the body is passed on"),
    }
}

#[test]
fn request_names_its_span_by_method_and_route() {
    let cfg = cfg_with(0.0);
    let r = request_started(&cfg, "POST", Some("/users/:id"), "/users/7", "/users/7?x=1");
    assert!(!r.sampled);
    assert_eq!(r.span_name(), "POST /users/:id");
    assert_eq!(r.url, "/users/7?x=1");
    assert_eq!(request_route(None, "/users/7"), "/users/7");
    assert_eq!(request_route(Some("/users/:id"), "/users/7"), "/users/:id");
    assert_eq!(
        shown(&span_attributes("GET", "/r", "/u")),
        vec!["http.method=GET", "http.route=/r", "http.url=/u"]
    );
}

#[test]
fn route_decides_about_sampling() {
    let cfg = cfg_with(1.0);
    assert!(!request_started(&cfg, "GET", Some("/health"), "/x", "/x").sampled);
    assert!(!request_started(&cfg, "GET", None, "/health", "/x").sampled);
    assert!(request_started(&cfg, "GET", Some("/x"), "/health", "/health").sampled);
}

#[test]
fn span_fails_from_status_400_up() {
    for (status, fails) in [(200u16, false), (399, false), (400, true), (404, true), (500, true)] {
        match request(true).answered(false, status) {
            SpanAction::Finish {
                attributes,
                status: end,
            } => {
                assert_eq!(
                    shown(&attributes),
                    vec![format!("http.status_code:{}", status), format!("error?{}", fails)]
                );
                match end {
                    SpanStatus::Failed(m) => {
                        assert!(fails);
                        assert_eq!(m, format!("HTTP {}", status));
                    }
                    SpanStatus::Succeeded => assert!(!fails),
                }
            }
            _ => panic!("a sampled request has its span finished"),
        }
    }
}

#[test]
fn server_error_is_recorded_though_not_sampled() {
    let cfg = cfg_with(0.0);
    let r = request_started(&cfg, "GET", Some("/health"), "/health", "/health");
    match r.response_received(&cfg, 503) {
        SpanAction::Record(span) => {
            assert_eq!(span.name, "GET /health");
            assert_eq!(span.kind, SpanKind::Server);
            assert_eq!(
                shown(&span.attributes),
                vec![
                    "http.method=GET",
                    "http.route=/health",
                    "http.url=/health",
                    "http.status_code:503",
                    "error?true",
                ]
            );
            assert!(matches!(span.status, SpanStatus::Failed(m) if m == "HTTP 503"));
        }
        _ => panic!("a server error is recorded"),
    }
    assert!(matches!(r.response_received(&cfg, 499), SpanAction::Skip));
    assert!(matches!(r.response_received(&cfg, 200), SpanAction::Skip));
}

#[test]
fn server_error_is_left_where_errors_are_not_always_sampled() {
    let mut cfg = cfg_with(0.0);
    cfg.sampling.traces.always_sample_errors = false;
    assert!(matches!(request(false).response_received(&cfg, 500), SpanAction::Skip));
    assert!(matches!(request(false).answered(true, 500), SpanAction::Record(_)));
    assert!(matches!(request(false).answered(true, 499), SpanAction::Skip));
}

#[test]
fn only_server_errors_are_submitted() {
    let mut cfg = cfg_with(1.0);
    assert_eq!(report_plan(&cfg, 499, None), ReportPlan::Leave);
    assert_eq!(report_plan(&cfg, 500, None), ReportPlan::StatusOnly);
    assert_eq!(report_plan(&cfg, 599, Some("0")), ReportPlan::ReadBody);
    cfg.disable_http_error_reporting = true;
    assert_eq!(report_plan(&cfg, 500, Some("0")), ReportPlan::Leave);
}

#[test]
fn only_short_bodies_are_read() {
    let cfg = cfg_with(1.0);
    assert_eq!(report_plan(&cfg, 500, Some("65536")), ReportPlan::ReadBody);
    assert_eq!(report_plan(&cfg, 500, Some("65537")), ReportPlan::StatusOnly);
    assert_eq!(report_plan(&cfg, 500, Some("18446744073709551616")), ReportPlan::StatusOnly);
    assert_eq!(report_plan(&cfg, 500, Some("-1")), ReportPlan::StatusOnly);
    assert_eq!(report_plan(&cfg, 500, Some("")), ReportPlan::StatusOnly);
}

#[test]
fn body_that_cannot_be_read_leaves_the_status() {
    let (message, passed_on) = body_read(502, None);
    assert_eq!(message, "HTTP 502");
    assert!(passed_on.is_empty());
    let (message, passed_on) = body_read(502, Some(Vec::new()));
    assert_eq!(message, "HTTP 502");
    assert!(passed_on.is_empty());
}

#[test]
fn message_is_looked_for_in_the_first_4096_bytes() {
    let fits = format!("{:4096}", r#"{"error":"db down"}"#);
    assert_eq!(body_read(500, Some(fits.clone().into_bytes())).0, "db down");
    let longer = format!("{}x", fits);
    let (message, passed_on) = body_read(500, Some(longer.clone().into_bytes()));
    assert_eq!(message, "db down");
    assert_eq!(passed_on, longer.into_bytes());
    let cut = format!(r#"{{"error":"{}"}}"#, "x".repeat(5000));
    assert_eq!(body_read(500, Some(cut.into_bytes())).0, "HTTP 500");
}

#[test]
fn server_error_is_submitted_with_its_request() {
    let client = MiddleMonitorClient::new(cfg_with(1.0), PipelineOutcome::Ready).0;
    let s = request(true).submit(&client, 500, "db down");
    assert_eq!(s.url, "http://h/api/v1/errors");
    assert_eq!(s.bearer, Some("t".to_string()));
    let at = |key: &str| s.payload.get(key).and_then(|v| v.as_str()).map(|t| t.to_string());
    assert_eq!(at("name"), Some("http".to_string()));
    assert_eq!(at("message"), Some("db down".to_string()));
    assert_eq!(at("file"), Some("handler".to_string()));
    assert_eq!(at("http_method"), Some("GET".to_string()));
    assert_eq!(at("http_url"), Some("/users/7?x=1".to_string()));
    assert_eq!(at("http_body"), None);
    assert_eq!(s.payload.get("line").and_then(|v| v.as_i64()), Some(0));
}

#[test]
fn successful_exchange_finishes_its_span() {
    let client = client_with(1.0);
    let (stage, action) = middleware(&client, Stage::Waiting, arrived("/a"));
    match action {
        Action::Serve { open: Some(open) } => {
            assert_eq!(open.name, "GET /a");
            assert_eq!(open.kind, SpanKind::Server);
            assert_eq!(
                shown(&open.attributes),
                vec!["http.method=GET", "http.route=/a", "http.url=/path?q"]
            );
        }
        _ => panic!("a sampled request starts a span"),
    }
    let (stage, action) = middleware(&client, stage, answered(204, Some("0")));
    assert!(matches!(stage, Stage::Finished));
    match action {
        Action::PassOn {
            span: SpanAction::Finish { status, .. },
            report,
        } => {
            assert!(matches!(status, SpanStatus::Succeeded));
            assert!(report.is_none());
        }
        _ => panic!("a success is passed on"),
    }
    let (stage, action) = middleware(&client, stage, answered(500, None));
    assert!(matches!(stage, Stage::Finished));
    assert!(matches!(action, Action::Ignore));
}

#[test]
fn failed_exchange_reads_and_returns_the_body() {
    let client = client_with(1.0);
    let (stage, action) = middleware(&client, Stage::Waiting, arrived("/health"));
    assert!(matches!(action, Action::Serve { open: None }));
    let (stage, action) = middleware(&client, stage, answered(500, Some("19")));
    match action {
        Action::ReadBody {
            span: SpanAction::Record(span),
        } => assert_eq!(span.name, "GET /health"),
        _ => panic!("a server error is recorded and its body read"),
    }
    let body = br#"{"error":"db down"}"#.to_vec();
    let (stage, action) = middleware(&client, stage, Event::BodyRead(Some(body.clone())));
    assert!(matches!(stage, Stage::Finished));
    match action {
        Action::Reply {
            body: passed_on,
            submission,
        } => {
            assert_eq!(passed_on, body);
            assert_eq!(
                submission.payload.get("message").and_then(|v| v.as_str()),
                Some("db down")
            );
        }
        _ => panic!("the body is passed on"),
    }
}

#[test]
fn failed_exchange_without_a_length_is_submitted_by_its_status() {
    let client = client_with(0.0);
    let (stage, _) = middleware(&client, Stage::Waiting, arrived("/a"));
    let (stage, action) = middleware(&client, stage, answered(502, None));
    assert!(matches!(stage, Stage::Finished));
    match action {
        Action::PassOn {
            span: SpanAction::Record(_),
            report: Some(submission),
        } => assert_eq!(
            submission.payload.get("message").and_then(|v| v.as_str()),
            Some("HTTP 502")
        ),
        _ => panic!("a server error is recorded and submitted"),
    }
}

#[test]
fn body_that_was_lost_leaves_an_empty_reply() {
    let client = client_with(0.0);
    let (stage, _) = middleware(&client, Stage::Waiting, arrived("/a"));
    let (stage, _) = middleware(&client, stage, answered(500, Some("5")));
    let (_, action) = middleware(&client, stage, Event::BodyRead(None));
    match action {
        Action::Reply { body, submission } => {
            assert!(body.is_empty());
            assert_eq!(
                submission.payload.get("message").and_then(|v| v.as_str()),
                Some("HTTP 500")
            );
        }
        _ => panic!("the response is sent all the same"),
    }
}

#[test]
fn events_out_of_order_are_ignored() {
    let client = client_with(1.0);
    let (stage, action) = middleware(&client, Stage::Waiting, answered(500, None));
    assert!(matches!(stage, Stage::Waiting));
    assert!(matches!(action, Action::Ignore));
    let (stage, _) = middleware(&client, stage, arrived("/a"));
    let (stage, action) = middleware(&client, stage, Event::BodyRead(None));
    assert!(matches!(stage, Stage::InFlight(_)));
    assert!(matches!(action, Action::Ignore));
}
