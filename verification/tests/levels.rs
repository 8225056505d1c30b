use middle_monitor_sdk::LogLevel;

#[test]
fn log_level_as_str_all_variants() {
    assert_eq!(LogLevel::Debug.as_str(), "DEBUG");
    assert_eq!(LogLevel::Info.as_str(), "INFO");
    assert_eq!(LogLevel::Warn.as_str(), "WARN");
    assert_eq!(LogLevel::Error.as_str(), "ERROR");
    assert_eq!(LogLevel::Fatal.as_str(), "FATAL");
    assert_eq!(LogLevel::Panic.as_str(), "PANIC");
}

#[test]
fn log_level_from_str_valid_variants() {
    assert_eq!(LogLevel::from_str("DEBUG"), Some(LogLevel::Debug));
    assert_eq!(LogLevel::from_str("debug"), Some(LogLevel::Debug));
    assert_eq!(LogLevel::from_str("INFO"), Some(LogLevel::Info));
    assert_eq!(LogLevel::from_str("WARN"), Some(LogLevel::Warn));
    assert_eq!(LogLevel::from_str("WARNING"), Some(LogLevel::Warn));
    assert_eq!(LogLevel::from_str("ERROR"), Some(LogLevel::Error));
    assert_eq!(LogLevel::from_str("FATAL"), Some(LogLevel::Fatal));
    assert_eq!(LogLevel::from_str("PANIC"), Some(LogLevel::Panic));
}

#[test]
fn log_level_from_str_invalid_returns_none() {
    assert_eq!(LogLevel::from_str("UNKNOWN"), None);
    assert_eq!(LogLevel::from_str(""), None);
    assert_eq!(LogLevel::from_str("trace"), None);
}

#[test]
fn level_names_read_back() {
    for level in [
        LogLevel::Debug,
        LogLevel::Info,
        LogLevel::Warn,
        LogLevel::Error,
        LogLevel::Fatal,
        LogLevel::Panic,
    ] {
        assert_eq!(LogLevel::from_str(level.as_str()), Some(level));
    }
}

#[test]
fn case_of_level_names_does_not_matter() {
    assert_eq!(LogLevel::from_str("wArNiNg"), Some(LogLevel::Warn));
    assert_eq!(LogLevel::from_str(" INFO"), None);
    assert_eq!(LogLevel::from_upper("info"), None);
}

#[test]
fn upper_case_follows_unicode() {
    // The upper-case form of the dotless i is the letter I.
    assert_eq!(LogLevel::from_str("\u{131}nfo"), Some(LogLevel::Info));
    assert_eq!(LogLevel::from_str("in\u{fb00}o"), None);
}
