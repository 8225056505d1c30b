use middle_monitor_sdk::config::{Config, LogLevel};
use middle_monitor_sdk::config_from_env;
use middle_monitor_sdk::env::{
    header_token, levels_from_names, token_from_headers, Environment, RateReading,
};
use middle_monitor_sdk::rate::Rate;

fn env_of(vars: &[(&str, &str)]) -> Environment {
    Environment {
        vars: vars.iter().map(|(k, v)| (k.to_string(), v.to_string())).collect(),
    }
}

fn read(vars: &[(&str, &str)]) -> Result<Config, String> {
    let env = env_of(vars);
    let parsed: Option<f64> = match env.get("MIDDLE_MONITOR_TRACES_SAMPLING") {
        Some(text) => text.parse::<f64>().ok(),
        None => None,
    };
    let reading = RateReading {
        value: parsed.map(|v| Rate { bits: v.to_bits() }),
        shown: match parsed {
            Some(v) => format!("{}", v),
            None => String::new(),
        },
    };
    config_from_env(&env, &reading)
}

#[test]
fn config_from_env_defaults() {
    let cfg = read(&[]).unwrap();
    assert_eq!(cfg.endpoint, "https://api.middlemonitor.io");
    assert_eq!(cfg.service, "unknown");
    assert_eq!(cfg.token, None);
}

#[test]
fn config_from_env_middle_monitor_api_url() {
    let cfg = read(&[("MIDDLE_MONITOR_API_URL", "http://custom:9090")]).unwrap();
    assert_eq!(cfg.endpoint, "http://custom:9090");
}

#[test]
fn config_from_env_otel_endpoint_fallback() {
    let cfg = read(&[("OTEL_EXPORTER_OTLP_ENDPOINT", "http://otel:4318")]).unwrap();
    assert_eq!(cfg.endpoint, "http://otel:4318");
}

#[test]
fn config_from_env_service_from_otel() {
    let cfg = read(&[("OTEL_SERVICE_NAME", "my-svc")]).unwrap();
    assert_eq!(cfg.service, "my-svc");
}

#[test]
fn config_from_env_token_from_middle_monitor() {
    let cfg = read(&[("MIDDLE_MONITOR_TOKEN", "mytoken")]).unwrap();
    assert_eq!(cfg.token, Some("mytoken".to_string()));
}

#[test]
fn config_from_env_token_from_otlp_headers_authorization() {
    let cfg = read(&[(
        "OTEL_EXPORTER_OTLP_HEADERS",
        "authorization=Bearer secret123,x-other=val",
    )])
    .unwrap();
    assert_eq!(cfg.token, Some("secret123".to_string()));
}

#[test]
fn config_from_env_otlp_headers_without_equals_sign() {
    let cfg = read(&[("OTEL_EXPORTER_OTLP_HEADERS", "noequals")]).unwrap();
    assert_eq!(cfg.token, None);
}

#[test]
fn config_from_env_otlp_headers_without_authorization() {
    let cfg = read(&[("OTEL_EXPORTER_OTLP_HEADERS", "x-other=val")]).unwrap();
    assert_eq!(cfg.token, None);
}

#[test]
fn config_from_env_protocol_from_otel() {
    let cfg = read(&[("OTEL_EXPORTER_OTLP_PROTOCOL", "grpc")]).unwrap();
    assert_eq!(cfg.protocol, "grpc");
}

#[test]
fn config_from_env_traces_sampling_valid() {
    let cfg = read(&[("MIDDLE_MONITOR_TRACES_SAMPLING", "0.5")]).unwrap();
    assert!((f64::from_bits(cfg.sampling.traces.percentage.bits) - 0.5).abs() < 1e-10);
}

#[test]
fn config_from_env_traces_sampling_out_of_range() {
    let result = read(&[("MIDDLE_MONITOR_TRACES_SAMPLING", "2.0")]);
    assert!(result.is_err());
    assert!(result.unwrap_err().contains("MIDDLE_MONITOR_TRACES_SAMPLING"));
}

#[test]
fn config_from_env_traces_sampling_not_a_number() {
    let result = read(&[("MIDDLE_MONITOR_TRACES_SAMPLING", "notanumber")]);
    assert!(result.is_err());
}

#[test]
fn config_from_env_logs_levels_valid() {
    let cfg = read(&[("MIDDLE_MONITOR_LOGS_LEVELS", "DEBUG,WARN")]).unwrap();
    assert!(cfg.sampling.logs.levels.contains(&LogLevel::Debug));
    assert!(cfg.sampling.logs.levels.contains(&LogLevel::Warn));
}

#[test]
fn config_from_env_logs_levels_invalid() {
    let result = read(&[("MIDDLE_MONITOR_LOGS_LEVELS", "INVALID")]);
    assert!(result.is_err());
}

#[test]
fn config_from_env_min_http_status() {
    let cfg = read(&[("MIDDLE_MONITOR_LOGS_MIN_HTTP_STATUS", "400")]).unwrap();
    assert_eq!(cfg.sampling.logs.min_http_status, 400);
}

#[test]
fn config_from_env_min_http_status_invalid() {
    let result = read(&[("MIDDLE_MONITOR_LOGS_MIN_HTTP_STATUS", "notanumber")]);
    assert!(result.is_err());
}

#[test]
fn own_variables_override_opentelemetry() {
    let cfg = read(&[
        ("OTEL_EXPORTER_OTLP_ENDPOINT", "http://otel:4318"),
        ("MIDDLE_MONITOR_API_URL", "http://own:1//"),
        ("OTEL_SERVICE_NAME", "otel"),
        ("MIDDLE_MONITOR_SERVICE", "own"),
        ("OTEL_EXPORTER_OTLP_HEADERS", "authorization=otel"),
        ("MIDDLE_MONITOR_TOKEN", ""),
        ("OTEL_EXPORTER_OTLP_PROTOCOL", "grpc"),
        ("MIDDLE_MONITOR_PROTOCOL", "http/json"),
    ])
    .unwrap();
    assert_eq!(cfg.endpoint, "http://own:1");
    assert!(cfg.insecure);
    assert_eq!(cfg.service, "own");
    assert_eq!(cfg.token, Some("".to_string()));
    assert_eq!(cfg.protocol, "http/json");
}

#[test]
fn messages_say_what_is_wrong() {
    assert_eq!(
        read(&[("MIDDLE_MONITOR_TRACES_SAMPLING", "2.50")]).unwrap_err(),
        "MIDDLE_MONITOR_TRACES_SAMPLING must be between -1 and 1, got 2.5"
    );
    assert_eq!(
        read(&[("MIDDLE_MONITOR_TRACES_SAMPLING", "many")]).unwrap_err(),
        "invalid MIDDLE_MONITOR_TRACES_SAMPLING: many"
    );
    assert_eq!(
        read(&[("MIDDLE_MONITOR_LOGS_LEVELS", "info, loud ,quiet")]).unwrap_err(),
        "invalid log level in MIDDLE_MONITOR_LOGS_LEVELS: loud"
    );
    assert_eq!(
        read(&[("MIDDLE_MONITOR_LOGS_MIN_HTTP_STATUS", "65536")]).unwrap_err(),
        "invalid MIDDLE_MONITOR_LOGS_MIN_HTTP_STATUS: 65536"
    );
}

#[test]
fn first_mistake_is_the_one_told() {
    let message = read(&[
        ("MIDDLE_MONITOR_LOGS_MIN_HTTP_STATUS", "x"),
        ("MIDDLE_MONITOR_LOGS_LEVELS", "y"),
        ("MIDDLE_MONITOR_TRACES_SAMPLING", "z"),
    ])
    .unwrap_err();
    assert_eq!(message, "invalid MIDDLE_MONITOR_TRACES_SAMPLING: z");
}

#[test]
fn share_from_the_environment_stays_in_range() {
    for text in ["-1", "1", "0", "-0.5", "1e-3"] {
        let cfg = read(&[("MIDDLE_MONITOR_TRACES_SAMPLING", text)]).unwrap();
        let share = f64::from_bits(cfg.sampling.traces.percentage.bits);
        assert_eq!(share, text.parse::<f64>().unwrap());
    }
    for text in ["-1.0000000000000002", "1.0000000000000002", "inf", "-inf", "1e300"] {
        assert!(read(&[("MIDDLE_MONITOR_TRACES_SAMPLING", text)]).is_err(), "{}", text);
    }
    // A text that reads as no number in particular lies in no range.
    assert_eq!(
        read(&[("MIDDLE_MONITOR_TRACES_SAMPLING", "NaN")]).unwrap_err(),
        "MIDDLE_MONITOR_TRACES_SAMPLING must be between -1 and 1, got NaN"
    );
}

#[test]
fn level_lists_are_trimmed_and_kept_in_order() {
    assert_eq!(
        levels_from_names(" panic , debug,WARNING\t,debug").unwrap(),
        vec![LogLevel::Panic, LogLevel::Debug, LogLevel::Warn, LogLevel::Debug]
    );
    assert_eq!(levels_from_names("").unwrap_err(), "");
    assert_eq!(levels_from_names("info,").unwrap_err(), "");
}

#[test]
fn statuses_are_read_as_16_bit_numbers() {
    for (text, status) in [("0", 0u16), ("+500", 500), ("00404", 404), ("65535", 65535)] {
        let cfg = read(&[("MIDDLE_MONITOR_LOGS_MIN_HTTP_STATUS", text)]).unwrap();
        assert_eq!(cfg.sampling.logs.min_http_status, status);
        assert_eq!(text.parse::<u16>().unwrap(), status);
    }
    for text in ["", "+", "-0", " 5", "5 ", "1_000", "99999999999999999999999999", "\u{663}"] {
        assert!(read(&[("MIDDLE_MONITOR_LOGS_MIN_HTTP_STATUS", text)]).is_err(), "{}", text);
        assert!(text.parse::<u16>().is_err(), "{}", text);
    }
}

#[test]
fn header_lists_give_the_first_authorization() {
    assert_eq!(
        token_from_headers("x=1, Authorization=Bearer a=b ,authorization=c"),
        Some("a=b".to_string())
    );
    assert_eq!(token_from_headers("AUTHORIZATION=plain"), Some("plain".to_string()));
    assert_eq!(token_from_headers("authorization=Bearer Bearer t"), Some("t".to_string()));
    assert_eq!(token_from_headers("authorization =Bearer t"), None);
    assert_eq!(token_from_headers("authorization="), Some("".to_string()));
    assert_eq!(token_from_headers("authorization"), None);
    assert_eq!(token_from_headers("=,,="), None);
}

#[test]
fn header_names_are_lowered_before_they_are_compared() {
    assert_eq!(header_token("authorization", "Bearer t"), Some("t".to_string()));
    assert_eq!(header_token("Authorization", "Bearer t"), None);
    // The Kelvin sign is a letter K outside of ASCII: it becomes a k, and no more.
    assert_eq!(token_from_headers("\u{212a}=v,authorization=t"), Some("t".to_string()));
}

#[test]
fn first_of_two_equal_names_counts() {
    let env = env_of(&[("A", "1"), ("A", "2"), ("B", "3")]);
    assert_eq!(env.get("A"), Some(&"1".to_string()));
    assert_eq!(env.get("B"), Some(&"3".to_string()));
    assert_eq!(env.get("C"), None);
}
