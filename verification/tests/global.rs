use middle_monitor_sdk::client::{ErrorReport, PipelineOutcome};
use middle_monitor_sdk::config::Config;
use middle_monitor_sdk::env::{Environment, RateReading};
use middle_monitor_sdk::error::Error;
use middle_monitor_sdk::global::{
    current_client, install_client, shutdown_client, Asked, ClientRequest, GlobalState, Startup,
};
use middle_monitor_sdk::monitor::{PanicNotice, PanicPayload};
use middle_monitor_sdk::telemetry::LogEntry;
use middle_monitor_sdk::{
    capture_panic_global, flush_logs_global, get_global_client, get_global_config, init,
    init_simple, init_with_config, log_global, new_config, report_error,
    report_error_with_details, LogLevel,
};

fn nothing_set() -> Environment {
    Environment { vars: Vec::new() }
}

fn no_number() -> RateReading {
    RateReading {
        value: None,
        shown: String::new(),
    }
}

/// Makes a call, and makes it again once the client was started for it.
fn served<T>(state: &mut GlobalState, call: impl Fn(&mut GlobalState) -> Asked<T>) -> T {
    match call(state) {
        Asked::Done(result) => result,
        Asked::Start(startup) => {
            carry_through(state, Some(startup));
            match call(state) {
                Asked::Done(result) => result,
                Asked::Start(_) => panic!("the client is started once"),
            }
        }
    }
}

fn error_through(state: &mut GlobalState, error: &str) -> Result<Option<ErrorReport>, Error> {
    served(state, |s| report_error(s, &nothing_set(), &no_number(), error, "T"))
}

fn details_through(state: &mut GlobalState, file: &str) -> Result<Option<ErrorReport>, Error> {
    served(state, |s| {
        report_error_with_details(s, &nothing_set(), &no_number(), "err", file, 10, "T")
    })
}

fn log_through(state: &mut GlobalState, message: &str) -> Result<Option<LogEntry>, Error> {
    served(state, |s| {
        log_global(s, &nothing_set(), &no_number(), &LogLevel::Info, message, None)
    })
}

fn config_through(state: &mut GlobalState) -> Option<Config> {
    served(state, |s| get_global_config(s, &nothing_set(), &no_number()))
}

fn carry_through(state: &mut GlobalState, startup: Option<Startup>) {
    if let Some(startup) = startup {
        let warning = install_client(state, startup.config, PipelineOutcome::Ready);
        assert_eq!(warning, None);
    }
}

fn started() -> GlobalState {
    let mut state = GlobalState::new();
    let startup = init_simple(&mut state, &nothing_set(), &no_number());
    carry_through(&mut state, startup);
    state
}

#[test]
fn get_global_client_returns_some() {
    let mut state = GlobalState::new();
    assert!(current_client(&state).is_none());
    match get_global_client(&mut state, &nothing_set(), &no_number()) {
        ClientRequest::Start(startup) => carry_through(&mut state, Some(startup)),
        _ => panic!("the first request starts the client"),
    }
    let request = get_global_client(&mut state, &nothing_set(), &no_number());
    assert!(matches!(request, ClientRequest::Present));
    assert!(current_client(&state).is_some());
}

#[test]
fn get_global_config_returns_some() {
    let mut unused = GlobalState::new();
    let cfg = config_through(&mut unused);
    assert!(cfg.is_some());
    assert_eq!(cfg.unwrap().endpoint, "https://api.middlemonitor.io");
    assert!(config_through(&mut started()).is_some());
}

#[test]
fn global_report_error_ok() {
    let result = error_through(&mut GlobalState::new(), "some global error");
    assert!(result.is_ok());
    assert!(result.unwrap().is_some());
    assert!(error_through(&mut started(), "some global error").unwrap().is_some());
}

#[test]
fn global_report_error_with_details_ok() {
    let result = details_through(&mut GlobalState::new(), "src/main.rs");
    assert!(result.is_ok());
    assert!(result.unwrap().is_some());
    assert!(details_through(&mut started(), "/rustc/main.rs").unwrap().is_none());
}

#[test]
fn global_log_ok() {
    let result = log_through(&mut GlobalState::new(), "hello");
    assert!(result.is_ok());
    assert_eq!(result.unwrap().unwrap().body, "hello");
}

#[test]
fn global_flush_logs_does_not_panic() {
    let flush = |s: &mut GlobalState| flush_logs_global(s, &nothing_set(), &no_number());
    assert!(served(&mut GlobalState::new(), flush));
    assert!(served(&mut started(), flush));
}

#[test]
fn init_with_config_is_no_op_after_first_init() {
    let mut state = started();
    let again = init_with_config(
        &mut state,
        "http://localhost:29997".to_string(),
        "override-svc".to_string(),
        None,
    );
    assert!(again.is_none());
    assert!(current_client(&state).is_some());
    assert_eq!(config_through(&mut state).unwrap().service, "unknown");
}

#[test]
fn init_simple_is_no_op_after_first_init() {
    let mut state = GlobalState::new();
    let first = init_with_config(&mut state, "http://h".to_string(), "s".to_string(), None);
    carry_through(&mut state, first);
    assert!(init_simple(&mut state, &nothing_set(), &no_number()).is_none());
    assert!(current_client(&state).is_some());
    assert_eq!(config_through(&mut state).unwrap().service, "s");
}

#[test]
fn capture_panic_global_does_not_panic() {
    let notice = PanicNotice {
        file: Some("src/lib.rs".to_string()),
        line: Some(584),
        payload: PanicPayload::Message("global panic test".to_string()),
    };
    let report = served(&mut GlobalState::new(), |s| {
        capture_panic_global(s, &nothing_set(), &no_number(), &notice, "T")
    });
    assert!(report.unwrap().is_some());
}

#[test]
fn without_a_client_nothing_is_reported() {
    // A start that was not carried through leaves no client.
    let mut state = GlobalState::new();
    assert!(init_simple(&mut state, &nothing_set(), &no_number()).is_some());
    assert!(error_through(&mut state, "e").unwrap().is_none());
    assert!(details_through(&mut state, "a.rs").unwrap().is_none());
    assert!(log_through(&mut state, "m").unwrap().is_none());
    assert!(config_through(&mut state).is_none());
}

#[test]
fn start_without_a_client_in_place_is_not_repeated() {
    let mut state = GlobalState::new();
    assert!(init_simple(&mut state, &nothing_set(), &no_number()).is_some());
    let request = get_global_client(&mut state, &nothing_set(), &no_number());
    assert!(matches!(request, ClientRequest::Absent));
}

#[test]
fn given_configuration_is_taken_as_it_is() {
    let mut state = GlobalState::new();
    let cfg = new_config("http://h".to_string(), "s".to_string(), Some("t".to_string()));
    let startup = init(&mut state, Some(cfg), &nothing_set(), &no_number()).unwrap();
    assert!(startup.notices.is_empty());
    assert_eq!(startup.config.endpoint, "http://h");
    assert_eq!(startup.config.token, Some("t".to_string()));
}

#[test]
fn missing_token_is_noticed() {
    let mut state = GlobalState::new();
    let startup =
        init_with_config(&mut state, "http://h".to_string(), "shop".to_string(), None).unwrap();
    assert_eq!(
        startup.notices,
        vec!["[Middle-Monitor] initialized without token: service=shop".to_string()]
    );
}

#[test]
fn bad_environment_leads_to_the_local_endpoint() {
    let mut state = GlobalState::new();
    let env = Environment {
        vars: vec![
            ("MIDDLE_MONITOR_LOGS_LEVELS".to_string(), "loud".to_string()),
            ("MIDDLE_MONITOR_TOKEN".to_string(), "t".to_string()),
        ],
    };
    let startup = init(&mut state, None, &env, &no_number()).unwrap();
    assert_eq!(startup.config.endpoint, "http://localhost:8080");
    assert_eq!(startup.config.service, "unknown");
    assert_eq!(startup.config.token, None);
    assert_eq!(
        startup.notices,
        vec![
            "[Middle-Monitor] failed to load config from env: invalid log level in MIDDLE_MONITOR_LOGS_LEVELS: loud"
                .to_string(),
            "[Middle-Monitor] initialized without token: service=unknown".to_string(),
        ]
    );
}

#[test]
fn client_with_a_failed_pipeline_is_installed_all_the_same() {
    let mut state = GlobalState::new();
    let startup = init_simple(&mut state, &nothing_set(), &no_number()).unwrap();
    let outcome = PipelineOutcome::LoggerFailed("no logger".to_string());
    let warning = install_client(&mut state, startup.config, outcome);
    assert_eq!(
        warning,
        Some(
            "[Middle-Monitor] Warning: failed to initialize OpenTelemetry client: no logger"
                .to_string()
        )
    );
    assert!(current_client(&state).is_some());
    assert!(matches!(error_through(&mut state, "e"), Err(Error::NotInitialized)));
    assert!(matches!(
        log_through(&mut state, "m"),
        Err(Error::NotInitialized)
    ));
}

#[test]
fn calls_on_an_unused_state_start_the_client_first() {
    let mut state = GlobalState::new();
    let reply = log_global(
        &mut state,
        &nothing_set(),
        &no_number(),
        &LogLevel::Info,
        "m",
        None,
    );
    match reply {
        Asked::Start(startup) => {
            assert_eq!(startup.config.service, "unknown");
            assert_eq!(startup.notices.len(), 1);
        }
        Asked::Done(_) => panic!("the client is started first"),
    }
    assert!(init_simple(&mut state, &nothing_set(), &no_number()).is_none());
}

#[test]
fn shared_client_stays_in_place_when_it_is_shut_down() {
    let mut state = started();
    let plan = shutdown_client(&mut state);
    assert!(plan.tracer_provider && plan.logger_provider);
    assert!(current_client(&state).is_some());
    assert!(matches!(error_through(&mut state, "e"), Err(Error::NotInitialized)));
    assert!(matches!(log_through(&mut state, "m"), Err(Error::NotInitialized)));
    assert_eq!(config_through(&mut state).unwrap().service, "unknown");
    let again = shutdown_client(&mut state);
    assert!(!again.tracer_provider && !again.logger_provider);
    let none = shutdown_client(&mut GlobalState::new());
    assert!(!none.tracer_provider && !none.logger_provider);
}

#[test]
fn client_in_place_is_not_replaced() {
    let mut state = GlobalState::new();
    let first = init_with_config(&mut state, "http://h".to_string(), "first".to_string(), None);
    carry_through(&mut state, first);
    let other = new_config("http://h".to_string(), "second".to_string(), None);
    let outcome = PipelineOutcome::TracerFailed("late".to_string());
    assert_eq!(install_client(&mut state, other, outcome), None);
    assert_eq!(config_through(&mut state).unwrap().service, "first");
    assert!(log_through(&mut state, "m").is_ok());
}

#[test]
fn client_in_place_counts_as_started() {
    let mut state = GlobalState::new();
    let cfg = new_config("http://h".to_string(), "own".to_string(), None);
    assert_eq!(install_client(&mut state, cfg, PipelineOutcome::Ready), None);
    assert!(init_simple(&mut state, &nothing_set(), &no_number()).is_none());
    assert_eq!(config_through(&mut state).unwrap().service, "own");
}
