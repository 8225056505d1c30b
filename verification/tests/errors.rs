use middle_monitor_sdk::error::Error;

#[test]
fn display_not_initialized() {
    assert_eq!(Error::NotInitialized.to_string(), "client not initialized");
}

#[test]
fn display_tracer_unavailable() {
    assert_eq!(Error::TracerUnavailable.to_string(), "tracer not available");
}

#[test]
fn display_init_error() {
    let e = Error::Init("bad config".to_string());
    assert_eq!(e.to_string(), "initialization failed: bad config");
}

#[test]
fn display_config_error() {
    let e = Error::Config("bad endpoint".to_string());
    assert_eq!(e.to_string(), "bad endpoint");
}

#[test]
fn debug_format() {
    let _ = format!("{:?}", Error::NotInitialized);
    let _ = format!("{:?}", Error::TracerUnavailable);
    let _ = format!("{:?}", Error::Init("x".to_string()));
}
