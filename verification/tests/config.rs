use middle_monitor_sdk::config::{
    rate_in_force, sample_trace_with_draw, settled_trace, Config, LogLevel, LogsSamplingConfig,
    TracesSamplingConfig,
};
use middle_monitor_sdk::rate::Rate;
use middle_monitor_sdk::{
    default_sampling_config, new_config, should_sample_log, should_sample_trace,
};

fn rate(value: f64) -> Rate {
    Rate {
        bits: value.to_bits(),
    }
}

fn value(rate: Rate) -> f64 {
    f64::from_bits(rate.bits)
}

fn strings(routes: Vec<&str>) -> Vec<String> {
    routes.into_iter().map(|s| s.to_string()).collect()
}

fn make_cfg_traces(
    percentage: f64,
    always_errors: bool,
    always: Vec<&str>,
    never: Vec<&str>,
) -> Config {
    let mut cfg = new_config("http://h".to_string(), "s".to_string(), None);
    cfg.sampling.traces.percentage = rate(percentage);
    cfg.sampling.traces.always_sample_errors = always_errors;
    cfg.sampling.traces.always_sample_routes = strings(always);
    cfg.sampling.traces.never_sample_routes = strings(never);
    cfg
}

fn make_cfg_logs(
    levels: Vec<LogLevel>,
    min: u16,
    capture_on_trace: bool,
    always: Vec<&str>,
    never: Vec<&str>,
) -> Config {
    let mut cfg = new_config("http://h".to_string(), "s".to_string(), None);
    cfg.sampling.logs.levels = levels;
    cfg.sampling.logs.min_http_status = min;
    cfg.sampling.logs.capture_on_trace_error = capture_on_trace;
    cfg.sampling.logs.always_capture_routes = strings(always);
    cfg.sampling.logs.never_capture_routes = strings(never);
    cfg
}

#[test]
fn default_sampling_percentage() {
    assert!((value(default_sampling_config().traces.percentage) - 0.10).abs() < 1e-10);
}

#[test]
fn default_sampling_percentage_is_exact() {
    assert_eq!(value(default_sampling_config().traces.percentage), 0.10);
    assert_eq!(value(TracesSamplingConfig::default().percentage), -1.0);
}

#[test]
fn default_sampling_includes_never_sample_routes() {
    let cfg = default_sampling_config();
    assert!(cfg.traces.never_sample_routes.contains(&"/health".to_string()));
    assert!(cfg.logs.never_capture_routes.contains(&"/metrics".to_string()));
}

#[test]
fn default_rules_in_full() {
    let traces = TracesSamplingConfig::default();
    let logs = LogsSamplingConfig::default();
    let probes = strings(vec!["/health", "/metrics", "/ready", "/healthz", "/readyz"]);
    assert!(traces.always_sample_errors);
    assert!(traces.always_sample_routes.is_empty());
    assert_eq!(traces.never_sample_routes, probes);
    assert_eq!(logs.levels, vec![LogLevel::Error, LogLevel::Fatal, LogLevel::Panic]);
    assert_eq!(logs.min_http_status, 500);
    assert!(logs.capture_on_trace_error);
    assert!(logs.always_capture_routes.is_empty());
    assert_eq!(logs.never_capture_routes, probes);
}

#[test]
fn new_config_basic_http() {
    let cfg = new_config("http://host:8080".to_string(), "svc".to_string(), None);
    assert_eq!(cfg.endpoint, "http://host:8080");
    assert!(cfg.insecure);
    assert_eq!(cfg.service, "svc");
    assert_eq!(cfg.token, None);
    assert_eq!(cfg.timeout_seconds, 5);
}

#[test]
fn new_config_strips_trailing_slash() {
    let cfg = new_config("http://host:8080/".to_string(), "svc".to_string(), None);
    assert_eq!(cfg.endpoint, "http://host:8080");
}

#[test]
fn new_config_strips_every_trailing_slash_once() {
    let cfg = new_config("http://host:8080/a///".to_string(), "svc".to_string(), None);
    assert_eq!(cfg.endpoint, "http://host:8080/a");
    let again = new_config(cfg.endpoint, "svc".to_string(), None);
    assert_eq!(again.endpoint, "http://host:8080/a");
    assert_eq!(new_config("///".to_string(), "svc".to_string(), None).endpoint, "");
}

#[test]
fn new_config_https_not_insecure() {
    let cfg = new_config(
        "https://host:4318".to_string(),
        "svc".to_string(),
        Some("tok".to_string()),
    );
    assert!(!cfg.insecure);
    assert_eq!(cfg.token, Some("tok".to_string()));
}

#[test]
fn new_config_scheme_is_taken_after_trimming() {
    // What is left of "http://" without its slashes is no scheme any more.
    let cfg = new_config("http://".to_string(), "svc".to_string(), None);
    assert_eq!(cfg.endpoint, "http:");
    assert!(!cfg.insecure);
    assert_eq!(cfg.protocol, "http");
    assert!(!cfg.disable_http_error_reporting);
}

#[test]
fn cloned_config_is_the_same() {
    let mut cfg = make_cfg_traces(0.25, false, vec!["/a"], vec!["/b", "/c"]);
    cfg.token = Some("t".to_string());
    let copy = cfg.clone();
    assert_eq!(copy.endpoint, cfg.endpoint);
    assert_eq!(copy.token, cfg.token);
    assert_eq!(copy.sampling.traces.percentage.bits, cfg.sampling.traces.percentage.bits);
    assert_eq!(copy.sampling.traces.always_sample_routes, vec!["/a".to_string()]);
    assert_eq!(copy.sampling.traces.never_sample_routes, strings(vec!["/b", "/c"]));
    assert_eq!(copy.sampling.logs.levels, cfg.sampling.logs.levels);
}

#[test]
fn should_sample_trace_never_route_no_error() {
    let cfg = make_cfg_traces(1.0, false, vec![], vec!["/health"]);
    assert!(!should_sample_trace(&cfg, "/health", false));
}

#[test]
fn should_sample_trace_never_route_with_error_and_always_sample_errors() {
    let cfg = make_cfg_traces(1.0, true, vec![], vec!["/health"]);
    assert!(should_sample_trace(&cfg, "/health", true));
}

#[test]
fn should_sample_trace_never_route_with_error_but_no_always_sample() {
    let cfg = make_cfg_traces(1.0, false, vec![], vec!["/health"]);
    assert!(!should_sample_trace(&cfg, "/health", true));
}

#[test]
fn should_sample_trace_always_route_match() {
    let cfg = make_cfg_traces(0.0, false, vec!["/admin"], vec![]);
    assert!(should_sample_trace(&cfg, "/admin", false));
}

#[test]
fn should_sample_trace_always_route_no_match() {
    let cfg = make_cfg_traces(0.0, false, vec!["/admin"], vec![]);
    assert!(!should_sample_trace(&cfg, "/other", false));
}

#[test]
fn should_sample_trace_always_sample_errors_with_error() {
    let cfg = make_cfg_traces(0.0, true, vec![], vec![]);
    assert!(should_sample_trace(&cfg, "/api", true));
}

#[test]
fn should_sample_trace_percentage_100() {
    let cfg = make_cfg_traces(1.0, false, vec![], vec![]);
    assert!(should_sample_trace(&cfg, "/api", false));
}

#[test]
fn should_sample_trace_percentage_0() {
    let cfg = make_cfg_traces(0.0, false, vec![], vec![]);
    assert!(!should_sample_trace(&cfg, "/api", false));
}

#[test]
fn should_sample_trace_auto_resolves_to_default() {
    // -1 (auto) resolves to the fixed default rate, independent of any environment
    assert!((value(default_sampling_config().traces.percentage) - 0.10).abs() < 1e-10);
    assert_eq!(value(rate_in_force(rate(-1.0))), 0.10);
    assert_eq!(value(rate_in_force(rate(0.5))), 0.5);
}

#[test]
fn should_sample_trace_wildcard_route() {
    let cfg = make_cfg_traces(1.0, false, vec![], vec!["/api/users/*"]);
    assert!(!should_sample_trace(&cfg, "/api/users/123", false));
}

#[test]
fn never_sampled_route_beats_always_sampled_route() {
    let cfg = make_cfg_traces(1.0, false, vec!["/api/*"], vec!["/api/quiet"]);
    assert!(!should_sample_trace(&cfg, "/api/quiet", false));
    assert!(should_sample_trace(&cfg, "/api/loud", false));
}

#[test]
fn chance_is_left_only_between_0_and_1() {
    let shares: Vec<(f64, Option<bool>)> = vec![
        (1.0, Some(true)),
        (7.5, Some(true)),
        (f64::INFINITY, Some(true)),
        (0.0, Some(false)),
        (-0.0, Some(false)),
        (0.5, None),
        (f64::MIN_POSITIVE, None),
        (-0.25, None),
        (f64::NEG_INFINITY, None),
        (f64::NAN, None),
    ];
    for (share, settled) in shares {
        let cfg = make_cfg_traces(share, false, vec![], vec![]);
        assert_eq!(settled_trace(&cfg, "/api", false), settled, "{}", share);
    }
}

#[test]
fn draw_decides_between_0_and_1() {
    let half = make_cfg_traces(0.5, false, vec![], vec![]);
    assert!(sample_trace_with_draw(&half, "/api", false, 0));
    assert!(sample_trace_with_draw(&half, "/api", false, u64::MAX / 2));
    assert!(!sample_trace_with_draw(&half, "/api", false, u64::MAX / 2 + 1));
    assert!(!sample_trace_with_draw(&half, "/api", false, u64::MAX));
    let none = make_cfg_traces(f64::NAN, false, vec![], vec![]);
    assert!(!sample_trace_with_draw(&none, "/api", false, 0));
    assert!(!should_sample_trace(&none, "/api", false));
}

#[test]
fn greater_share_keeps_what_a_smaller_one_keeps() {
    let small = make_cfg_traces(0.2, false, vec![], vec![]);
    let great = make_cfg_traces(0.7, false, vec![], vec![]);
    let mut draw: u64 = 0;
    for _ in 0..1000 {
        draw = draw.wrapping_add(0x0041_c64e_6d12_3457);
        if sample_trace_with_draw(&small, "/api", false, draw) {
            assert!(sample_trace_with_draw(&great, "/api", false, draw));
        }
    }
}

#[test]
fn chance_keeps_about_the_share_asked_for() {
    let cfg = make_cfg_traces(0.5, false, vec![], vec![]);
    let mut kept: u32 = 0;
    for _ in 0..20000 {
        if should_sample_trace(&cfg, "/api", false) {
            kept += 1;
        }
    }
    assert!(kept > 9000 && kept < 11000, "{}", kept);
}

#[test]
fn auto_share_keeps_about_one_in_ten() {
    let cfg = make_cfg_traces(-1.0, false, vec![], vec![]);
    let mut kept: u32 = 0;
    for _ in 0..20000 {
        if should_sample_trace(&cfg, "/api", false) {
            kept += 1;
        }
    }
    assert!(kept > 1500 && kept < 2500, "{}", kept);
}

#[test]
fn should_sample_log_never_route_below_status() {
    let cfg = make_cfg_logs(vec![], 500, false, vec![], vec!["/health"]);
    assert!(!should_sample_log(&cfg, "/health", &LogLevel::Info, 200, false));
}

#[test]
fn should_sample_log_never_route_above_status() {
    let cfg = make_cfg_logs(vec![], 500, false, vec![], vec!["/health"]);
    assert!(should_sample_log(&cfg, "/health", &LogLevel::Info, 500, false));
}

#[test]
fn should_sample_log_never_route_min_http_status_0() {
    let cfg = make_cfg_logs(vec![], 0, false, vec![], vec!["/health"]);
    assert!(!should_sample_log(&cfg, "/health", &LogLevel::Error, 500, false));
}

#[test]
fn should_sample_log_always_route_match() {
    let cfg = make_cfg_logs(vec![], 500, false, vec!["/api"], vec![]);
    assert!(should_sample_log(&cfg, "/api", &LogLevel::Debug, 200, false));
}

#[test]
fn should_sample_log_always_route_no_match() {
    let cfg = make_cfg_logs(vec![], 500, false, vec!["/api"], vec![]);
    assert!(!should_sample_log(&cfg, "/other", &LogLevel::Debug, 200, false));
}

#[test]
fn should_sample_log_min_http_status_hit() {
    let cfg = make_cfg_logs(vec![], 500, false, vec![], vec![]);
    assert!(should_sample_log(&cfg, "/api", &LogLevel::Debug, 500, false));
}

#[test]
fn should_sample_log_level_match() {
    let cfg = make_cfg_logs(vec![LogLevel::Error], 500, false, vec![], vec![]);
    assert!(should_sample_log(&cfg, "/api", &LogLevel::Error, 200, false));
}

#[test]
fn should_sample_log_capture_on_trace_error() {
    let cfg = make_cfg_logs(vec![], 500, true, vec![], vec![]);
    assert!(should_sample_log(&cfg, "/api", &LogLevel::Debug, 200, true));
}

#[test]
fn should_sample_log_nothing_matches() {
    let cfg = make_cfg_logs(vec![LogLevel::Error], 500, false, vec![], vec![]);
    assert!(!should_sample_log(&cfg, "/api", &LogLevel::Info, 200, false));
}

#[test]
fn never_captured_route_beats_level_and_trace() {
    let cfg = make_cfg_logs(vec![LogLevel::Error], 500, true, vec!["/health"], vec!["/health"]);
    assert!(!should_sample_log(&cfg, "/health", &LogLevel::Error, 499, true));
    assert!(should_sample_log(&cfg, "/health", &LogLevel::Debug, 503, false));
}
