//! The client that a process shares, and the reports that go through it.

use vstd::prelude::*;
use vstd::string::*;

use crate::client;
use crate::client::{ErrorReport, Failure, PipelineOutcome, ShutdownPlan};
use crate::config;
use crate::config::{new_config, Config, ConfigView};
use crate::env;
use crate::env::{config_from_env, Environment, RateReading};
use crate::error::Error;
use crate::level::LogLevel;
use crate::monitor;
use crate::monitor::{MiddleMonitorClient, MonitorView, PanicNotice};
use crate::telemetry::LogEntry;
use crate::text;

verus! {

/// The shared client, and whether it was started.
#[derive(Debug)]
pub struct GlobalState {
    started: bool,
    client: Option<MiddleMonitorClient>,
}

/// What a `GlobalState` holds.
pub struct GlobalView {
    pub started: bool,
    pub client: Option<MonitorView>,
}

/// A start of the shared client: the configuration to build its pipeline for,
/// and the notices to give.
#[derive(Debug)]
pub struct Startup {
    pub config: Config,
    pub notices: Vec<String>,
}

/// What a request for the shared client leads to.
#[derive(Debug)]
pub enum ClientRequest {
    /// The client is there.
    Present,
    /// The client has to be started first.
    Start(Startup),
    /// The client was started, and is not there.
    Absent,
}

/// What comes of a call that needs the shared client.
#[derive(Debug)]
pub enum Asked<T> {
    /// The client has to be started first; the call is made again after that.
    Start(Startup),
    /// The result of the call.
    Done(T),
}

/// What a `Startup` holds.
pub struct StartupView {
    pub config: ConfigView,
    pub notices: Seq<Seq<char>>,
}

impl View for GlobalState {
    type V = GlobalView;

    closed spec fn view(&self) -> GlobalView {
        GlobalView {
            started: self.started,
            client: match self.client {
                Some(c) => Some(c@),
                None => None,
            },
        }
    }
}

impl View for Startup {
    type V = StartupView;

    open spec fn view(&self) -> StartupView {
        StartupView { config: self.config@, notices: text::texts(self.notices@) }
    }
}

/// The notices about a configuration: one where it has no token.
pub open spec fn token_notices(config: ConfigView) -> Seq<Seq<char>> {
    match config.token {
        Some(_) => seq![],
        None => seq!["[Middle-Monitor] initialized without token: service="@ + config.service],
    }
}

/// A start with a given configuration.
pub open spec fn startup_with(config: ConfigView) -> StartupView {
    StartupView { config, notices: token_notices(config) }
}

/// A start with the configuration that the environment sets, or else with one
/// for a local endpoint.
pub open spec fn startup_from_env(found: Result<ConfigView, Seq<char>>) -> StartupView {
    match found {
        Ok(config) => startup_with(config),
        Err(message) => {
            let config = config::config_for("http://localhost:8080"@, "unknown"@, None);
            StartupView {
                config,
                notices: seq!["[Middle-Monitor] failed to load config from env: "@ + message]
                    + token_notices(config),
            }
        },
    }
}

/// The start that an environment leads to.
pub open spec fn env_startup(env: &Environment, reading: &RateReading) -> StartupView {
    startup_from_env(env::env_config(env.vars@, reading.value, reading.shown@))
}

/// `result` is what starting leads to: the given start the first time, and
/// nothing from then on.
pub open spec fn starts_once(
    before: GlobalView,
    after: GlobalView,
    startup: StartupView,
    result: Option<Startup>,
) -> bool {
    &&& after == (GlobalView { started: true, ..before })
    &&& match result {
        Some(s) => !before.started && s@ == startup,
        None => before.started,
    }
}

/// `request` is what a request for the shared client leads to, where it would
/// be started as given.
pub open spec fn request_follows(
    before: GlobalView,
    after: GlobalView,
    startup: StartupView,
    request: ClientRequest,
) -> bool {
    match request {
        ClientRequest::Present => before.client is Some && after == before,
        ClientRequest::Start(s) => before.client is None && starts_once(
            before,
            after,
            startup,
            Some(s),
        ),
        ClientRequest::Absent => before.client is None && before.started && after == before,
    }
}

/// `reply` is what comes of a call that needs the shared client: a client that
/// was never started is started as given before anything else.
pub open spec fn asks_first<T>(
    before: GlobalView,
    after: GlobalView,
    startup: StartupView,
    reply: Asked<T>,
) -> bool {
    match reply {
        Asked::Start(s) => before.client is None && starts_once(before, after, startup, Some(s)),
        Asked::Done(_) => (before.client is Some || before.started) && after == before,
    }
}

/// `result` is what the shared client makes of an error whose place is not known.
pub open spec fn error_reported(
    client: Option<MonitorView>,
    message: Seq<char>,
    error_type: Seq<char>,
    result: Result<Option<ErrorReport>, Error>,
) -> bool {
    match client {
        Some(c) => client::report_follows(
            c.client,
            Failure { message, error_type, file: None, line: None, http: None },
            result,
        ),
        None => result matches Ok(None),
    }
}

/// `result` is what the shared client makes of an error in a file and line.
pub open spec fn detailed_error_reported(
    client: Option<MonitorView>,
    message: Seq<char>,
    file: Seq<char>,
    line: i32,
    error_type: Seq<char>,
    result: Result<Option<ErrorReport>, Error>,
) -> bool {
    match client {
        Some(c) => monitor::filtered_report(
            c.client,
            file,
            Failure {
                message,
                error_type,
                file: Some(file),
                line: Some(monitor::unsigned_line(line)),
                http: None,
            },
            result,
        ),
        None => result matches Ok(None),
    }
}

/// `result` is what the shared client makes of a panic.
pub open spec fn panic_reported(
    client: Option<MonitorView>,
    notice: PanicNotice,
    error_type: Seq<char>,
    result: Result<Option<ErrorReport>, Error>,
) -> bool {
    match client {
        Some(c) => client::report_follows(
            c.client,
            monitor::panic_failure(notice, error_type),
            result,
        ),
        None => result matches Ok(None),
    }
}

/// `entry` is what the shared client makes of a message.
pub open spec fn message_logged(
    client: Option<MonitorView>,
    level: LogLevel,
    message: Seq<char>,
    pairs: Seq<(Seq<char>, Seq<char>)>,
    entry: Result<Option<LogEntry>, Error>,
) -> bool {
    match client {
        Some(c) => match entry {
            Ok(Some(e)) => c.client.initialized && e@ == client::log_entry(
                c.client.config.service,
                level,
                message,
                pairs,
            ),
            Ok(None) => false,
            Err(e) => !c.client.initialized && e is NotInitialized,
        },
        None => entry matches Ok(None),
    }
}

/// The state of a process that has not used the SDK yet.
pub open spec fn unused() -> GlobalView {
    GlobalView { started: false, client: None }
}

/// Every start was carried through: a client that was started is in place.
pub open spec fn carried_through(state: GlobalView) -> bool {
    state.started ==> state.client is Some
}

/// A client that is in place was started.
pub open spec fn coherent(state: GlobalView) -> bool {
    state.client is Some ==> state.started
}

/// The state after its client was shut down.
pub open spec fn shut_down(state: GlobalView) -> GlobalView {
    GlobalView {
        client: match state.client {
            Some(c) => Some(MonitorView { client: client::after_shutdown(c.client), ..c }),
            None => None,
        },
        ..state
    }
}

/// The state once a client for a configuration is in place; it counts as started.
pub open spec fn with_client(
    config: ConfigView,
    outcome: PipelineOutcome,
) -> GlobalView {
    GlobalView {
        started: true,
        client: Some(
            MonitorView {
                config,
                client: client::after_init(client::new_client(config), outcome),
            },
        ),
    }
}

/// The state once a client was put in place, which a client that is there already
/// keeps.
pub open spec fn installed(
    state: GlobalView,
    config: ConfigView,
    outcome: PipelineOutcome,
) -> GlobalView {
    if state.client is Some {
        state
    } else {
        with_client(config, outcome)
    }
}

impl GlobalState {
    #[verifier::type_invariant]
    spec fn in_order(self) -> bool {
        self.client is Some ==> self.started
    }

    /// The state of a process that has not used the SDK yet.
    pub fn new() -> (state: Self)
        ensures
            state@ == unused(),
    {
        GlobalState { started: false, client: None }
    }
}

/// Adds the notice that a configuration without a token asks for.
fn add_token_notice(config: &Config, notices: &mut Vec<String>)
    ensures
        text::texts(final(notices)@) == text::texts(old(notices)@) + token_notices(config@),
{
    if config.token.is_none() {
        notices.push(
            "[Middle-Monitor] initialized without token: service=".to_string().concat(
                config.service.as_str(),
            ),
        );
    }
    assert(text::texts(notices@) =~= text::texts(old(notices)@) + token_notices(config@));
}

/// Starts the shared client with the given configuration, unless it was
/// started before.
fn start_with(state: &mut GlobalState, config: Config) -> (startup: Option<Startup>)
    ensures
        starts_once(old(state)@, final(state)@, startup_with(config@), startup),
{
    if state.started {
        return None;
    }
    state.started = true;
    let mut notices: Vec<String> = Vec::new();
    add_token_notice(&config, &mut notices);
    assert(text::texts(notices@) =~= token_notices(config@));
    Some(Startup { config, notices })
}

/// Starts the shared client with the given configuration, or with the one that
/// the environment sets, unless it was started before.
pub fn init(
    state: &mut GlobalState,
    cfg: Option<Config>,
    env: &Environment,
    reading: &RateReading,
) -> (startup: Option<Startup>)
    ensures
        starts_once(
            old(state)@,
            final(state)@,
            match cfg {
                Some(config) => startup_with(config@),
                None => env_startup(env, reading),
            },
            startup,
        ),
{
    match cfg {
        Some(config) => start_with(state, config),
        None => {
            if state.started {
                return None;
            }
            state.started = true;
            let mut notices: Vec<String> = Vec::new();
            let config: Config = match config_from_env(env, reading) {
                Ok(config) => config,
                Err(message) => {
                    notices.push(
                        "[Middle-Monitor] failed to load config from env: ".to_string().concat(
                            message.as_str(),
                        ),
                    );
                    new_config("http://localhost:8080".to_string(), "unknown".to_string(), None)
                },
            };
            let ghost first = text::texts(notices@);
            add_token_notice(&config, &mut notices);
            assert(text::texts(notices@) =~= first + token_notices(config@));
            assert(text::texts(notices@) =~= env_startup(env, reading).notices);
            Some(Startup { config, notices })
        },
    }
}

/// Starts the shared client with the configuration that the environment sets,
/// unless it was started before.
pub fn init_simple(
    state: &mut GlobalState,
    env: &Environment,
    reading: &RateReading,
) -> (startup: Option<Startup>)
    ensures
        starts_once(old(state)@, final(state)@, env_startup(env, reading), startup),
{
    init(state, None, env, reading)
}

/// Starts the shared client for an endpoint, a service and a token, unless it
/// was started before.
pub fn init_with_config(
    state: &mut GlobalState,
    api_url: String,
    service: String,
    token: Option<String>,
) -> (startup: Option<Startup>)
    ensures
        starts_once(
            old(state)@,
            final(state)@,
            startup_with(config::config_for(api_url@, service@, text::opt_text(token))),
            startup,
        ),
{
    start_with(state, new_config(api_url, service, token))
}

/// Puts the shared client in place, once its pipeline was built with the given
/// outcome, and gives the notice about a pipeline that was not built. A client
/// that is in place already stays, and nothing is noticed.
pub fn install_client(
    state: &mut GlobalState,
    config: Config,
    outcome: PipelineOutcome,
) -> (warning: Option<String>)
    ensures
        final(state)@ == installed(old(state)@, config@, outcome),
        old(state)@.client is Some ==> final(state)@ == old(state)@ && warning is None,
        old(state)@.client is None ==> text::opt_text(warning) == monitor::init_warning(outcome),
{
    if state.client.is_some() {
        return None;
    }
    let (client, warning) = MiddleMonitorClient::new(config, outcome);
    state.started = true;
    state.client = Some(client);
    warning
}

/// What a request for the shared client leads to. A client that was not
/// started is started from the environment.
pub fn get_global_client(
    state: &mut GlobalState,
    env: &Environment,
    reading: &RateReading,
) -> (request: ClientRequest)
    ensures
        request_follows(old(state)@, final(state)@, env_startup(env, reading), request),
{
    if state.client.is_some() {
        return ClientRequest::Present;
    }
    match init(state, None, env, reading) {
        Some(startup) => ClientRequest::Start(startup),
        None => ClientRequest::Absent,
    }
}

/// The shared client, where it is in place.
pub fn current_client(state: &GlobalState) -> (client: Option<&MiddleMonitorClient>)
    ensures
        match client {
            Some(c) => state@.client == Some(c@),
            None => state@.client is None,
        },
        coherent(state@),
{
    proof {
        use_type_invariant(state);
    }
    match &state.client {
        Some(c) => Some(c),
        None => None,
    }
}

/// Starts the shared client from the environment where it was never started.
fn start_if_unused(state: &mut GlobalState, env: &Environment, reading: &RateReading) -> (startup:
    Option<Startup>)
    ensures
        match startup {
            Some(s) => old(state)@.client is None && starts_once(
                old(state)@,
                final(state)@,
                env_startup(env, reading),
                Some(s),
            ),
            None => (old(state)@.client is Some || old(state)@.started) && final(state)@ == old(
                state,
            )@,
        },
{
    match get_global_client(state, env, reading) {
        ClientRequest::Start(startup) => Some(startup),
        ClientRequest::Present => None,
        ClientRequest::Absent => None,
    }
}

/// The configuration of the shared client.
pub fn get_global_config(
    state: &mut GlobalState,
    env: &Environment,
    reading: &RateReading,
) -> (reply: Asked<Option<Config>>)
    ensures
        asks_first(old(state)@, final(state)@, env_startup(env, reading), reply),
        reply matches Asked::Done(config) ==> match config {
            Some(c) => old(state)@.client matches Some(client) && client.config == c@,
            None => old(state)@.client is None,
        },
{
    if let Some(startup) = start_if_unused(state, env, reading) {
        return Asked::Start(startup);
    }
    Asked::Done(
        match current_client(&*state) {
            Some(client) => Some(client.config().clone()),
            None => None,
        },
    )
}

/// The report of an error whose place is not known, through the shared client.
pub fn report_error(
    state: &mut GlobalState,
    env: &Environment,
    reading: &RateReading,
    error: &str,
    error_type: &str,
) -> (reply: Asked<Result<Option<ErrorReport>, Error>>)
    ensures
        asks_first(old(state)@, final(state)@, env_startup(env, reading), reply),
        reply matches Asked::Done(result) ==> error_reported(
            old(state)@.client,
            error@,
            error_type@,
            result,
        ),
{
    proof {
        monitor::unknown_file_is_reported();
    }
    if let Some(startup) = start_if_unused(state, env, reading) {
        return Asked::Start(startup);
    }
    Asked::Done(
        match current_client(&*state) {
            Some(client) => client.report_error(error, None, None, error_type),
            None => Ok(None),
        },
    )
}

/// The report of an error in a file and line, through the shared client.
pub fn report_error_with_details(
    state: &mut GlobalState,
    env: &Environment,
    reading: &RateReading,
    error: &str,
    file: &str,
    line: i32,
    error_type: &str,
) -> (reply: Asked<Result<Option<ErrorReport>, Error>>)
    ensures
        asks_first(old(state)@, final(state)@, env_startup(env, reading), reply),
        reply matches Asked::Done(result) ==> detailed_error_reported(
            old(state)@.client,
            error@,
            file@,
            line,
            error_type@,
            result,
        ),
{
    if let Some(startup) = start_if_unused(state, env, reading) {
        return Asked::Start(startup);
    }
    Asked::Done(
        match current_client(&*state) {
            Some(client) => client.report_error(
                error,
                Some(file.to_string()),
                Some(line),
                error_type,
            ),
            None => Ok(None),
        },
    )
}

/// The report of a panic, through the shared client.
pub fn capture_panic_global(
    state: &mut GlobalState,
    env: &Environment,
    reading: &RateReading,
    notice: &PanicNotice,
    error_type: &str,
) -> (reply: Asked<Result<Option<ErrorReport>, Error>>)
    ensures
        asks_first(old(state)@, final(state)@, env_startup(env, reading), reply),
        reply matches Asked::Done(result) ==> panic_reported(
            old(state)@.client,
            *notice,
            error_type@,
            result,
        ),
{
    if let Some(startup) = start_if_unused(state, env, reading) {
        return Asked::Start(startup);
    }
    Asked::Done(
        match current_client(&*state) {
            Some(client) => client.capture_panic(notice, error_type),
            None => Ok(None),
        },
    )
}

/// The log entry for a message, through the shared client.
pub fn log_global(
    state: &mut GlobalState,
    env: &Environment,
    reading: &RateReading,
    level: &LogLevel,
    message: &str,
    attrs: Option<&Vec<(String, String)>>,
) -> (reply: Asked<Result<Option<LogEntry>, Error>>)
    ensures
        asks_first(old(state)@, final(state)@, env_startup(env, reading), reply),
        reply matches Asked::Done(entry) ==> message_logged(
            old(state)@.client,
            *level,
            message@,
            client::given_pairs(attrs),
            entry,
        ),
{
    if let Some(startup) = start_if_unused(state, env, reading) {
        return Asked::Start(startup);
    }
    Asked::Done(
        match current_client(&*state) {
            Some(client) => match client.log(level, message, attrs) {
                Ok(entry) => Ok(Some(entry)),
                Err(e) => Err(e),
            },
            None => Ok(None),
        },
    )
}

/// Whether the shared client has log entries to be flushed.
pub fn flush_logs_global(
    state: &mut GlobalState,
    env: &Environment,
    reading: &RateReading,
) -> (reply: Asked<bool>)
    ensures
        asks_first(old(state)@, final(state)@, env_startup(env, reading), reply),
        reply matches Asked::Done(flush) ==> flush == (old(state)@.client matches Some(client)
            && client.client.logger_provider),
{
    if let Some(startup) = start_if_unused(state, env, reading) {
        return Asked::Start(startup);
    }
    Asked::Done(
        match current_client(&*state) {
            Some(client) => client.flush_logs(),
            None => false,
        },
    )
}

/// Shuts the shared client down, where it is in place, and tells which parts of
/// its pipeline have to be shut down.
pub fn shutdown_client(state: &mut GlobalState) -> (plan: ShutdownPlan)
    ensures
        final(state)@ == shut_down(old(state)@),
        match old(state)@.client {
            Some(client) => client::shutdown_follows(client.client, plan),
            None => !plan.tracer_provider && !plan.logger_provider,
        },
{
    proof {
        use_type_invariant(&*state);
    }
    let mut held: Option<MiddleMonitorClient> = None;
    std::mem::swap(&mut held, &mut state.client);
    let plan: ShutdownPlan = match &mut held {
        Some(client) => client.shutdown(),
        None => ShutdownPlan { tracer_provider: false, logger_provider: false },
    };
    state.client = held;
    plan
}

/// The shared client is started once: whatever starts it later leads to nothing
/// and changes nothing.
pub proof fn later_starts_change_nothing(
    before: GlobalView,
    after: GlobalView,
    startup: StartupView,
    result: Option<Startup>,
)
    requires
        before.started,
        starts_once(before, after, startup, result),
    ensures
        after == before,
        result is None,
{
}

/// Once a start was carried through, the shared client is there, whatever came
/// of its pipeline, and has the configuration that it was started with.
pub proof fn started_client_is_there(
    state: GlobalView,
    startup: StartupView,
    outcome: PipelineOutcome,
)
    requires
        state.client is None,
    ensures
        installed(state, startup.config, outcome).client matches Some(client) && client.config
            == startup.config && client.client.config == startup.config,
{
}

/// Whatever is started, put in place or shut down, a client that is in place was
/// started.
pub proof fn client_in_place_was_started(
    state: GlobalView,
    after: GlobalView,
    startup: StartupView,
    result: Option<Startup>,
    config: ConfigView,
    outcome: PipelineOutcome,
)
    requires
        coherent(state),
        starts_once(state, after, startup, result),
    ensures
        coherent(unused()),
        coherent(after),
        coherent(installed(state, config, outcome)),
        coherent(shut_down(state)),
{
}

/// The first client that is put in place stays: a later start leads to nothing,
/// and no second client takes its place.
pub proof fn first_client_stays(
    state: GlobalView,
    config: ConfigView,
    outcome: PipelineOutcome,
    after: GlobalView,
    startup: StartupView,
    result: Option<Startup>,
    later_config: ConfigView,
    later_outcome: PipelineOutcome,
)
    requires
        coherent(state),
        starts_once(installed(state, config, outcome), after, startup, result),
    ensures
        installed(state, config, outcome).client is Some,
        result is None,
        after == installed(state, config, outcome),
        installed(after, later_config, later_outcome) == after,
{
}

/// A request for the shared client finds it from then on, and changes nothing.
pub proof fn present_client_is_found(
    state: GlobalView,
    config: ConfigView,
    outcome: PipelineOutcome,
    after: GlobalView,
    startup: StartupView,
    request: ClientRequest,
)
    requires
        request_follows(installed(state, config, outcome), after, startup, request),
    ensures
        request is Present,
        after == installed(state, config, outcome),
{
}

/// A request for a client that was never started starts it from the environment.
pub proof fn first_request_starts_the_client(
    state: GlobalView,
    after: GlobalView,
    startup: StartupView,
    request: ClientRequest,
)
    requires
        !state.started,
        state.client is None,
        request_follows(state, after, startup, request),
    ensures
        request matches ClientRequest::Start(s) && s@ == startup,
        after.started,
{
}

/// Starts are carried through in an unused process, after a start whose client
/// was put in place, after a start that leads to nothing, and after a shutdown.
pub proof fn starts_stay_carried_through(
    state: GlobalView,
    after: GlobalView,
    startup: StartupView,
    result: Option<Startup>,
    outcome: PipelineOutcome,
)
    requires
        carried_through(state),
        starts_once(state, after, startup, result),
    ensures
        carried_through(unused()),
        match result {
            Some(s) => carried_through(installed(after, s@.config, outcome)),
            None => carried_through(after),
        },
        carried_through(shut_down(state)),
{
}

/// Where every start was carried through, a request for the shared client always
/// leads to one: it is there, or the start that comes back puts it there.
pub proof fn request_always_leads_to_a_client(
    state: GlobalView,
    after: GlobalView,
    startup: StartupView,
    request: ClientRequest,
    outcome: PipelineOutcome,
)
    requires
        carried_through(state),
        request_follows(state, after, startup, request),
    ensures
        match request {
            ClientRequest::Present => after.client is Some,
            ClientRequest::Start(s) => installed(after, s@.config, outcome).client is Some,
            ClientRequest::Absent => false,
        },
{
}

/// Where every start was carried through, a call that needs the shared client
/// finds it in place, at the latest when it is made again after the start.
pub proof fn call_always_has_a_client<T>(
    state: GlobalView,
    after: GlobalView,
    startup: StartupView,
    reply: Asked<T>,
    outcome: PipelineOutcome,
    again: GlobalView,
    reply_again: Asked<T>,
)
    requires
        carried_through(state),
        asks_first(state, after, startup, reply),
        reply matches Asked::Start(s) ==> asks_first(
            installed(after, s@.config, outcome),
            again,
            startup,
            reply_again,
        ),
    ensures
        match reply {
            Asked::Done(_) => state.client is Some,
            Asked::Start(s) => reply_again is Done && again == installed(
                after,
                s@.config,
                outcome,
            ),
        },
{
}

/// All holders of the shared client see one client: once any of them shuts it
/// down, a message and an error are refused to each of them, under the
/// configuration that it had.
pub proof fn shutdown_reaches_every_holder(
    state: GlobalView,
    level: LogLevel,
    message: Seq<char>,
    pairs: Seq<(Seq<char>, Seq<char>)>,
    entry: Result<Option<LogEntry>, Error>,
    error_type: Seq<char>,
    result: Result<Option<ErrorReport>, Error>,
)
    requires
        state.client is Some,
        message_logged(shut_down(state).client, level, message, pairs, entry),
        error_reported(shut_down(state).client, message, error_type, result),
    ensures
        entry matches Err(e) && e is NotInitialized,
        result matches Err(e) && e is NotInitialized,
        shut_down(state).client matches Some(c) && c.config == state.client->0.config,
{
}

} // verus!
