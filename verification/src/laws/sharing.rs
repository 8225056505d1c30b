//! Laws of the shared client.

use vstd::prelude::*;

use crate::client;
use crate::client::{ErrorReport, Failure, PipelineOutcome};
use crate::config;
use crate::config::ConfigView;
use crate::env;
use crate::env::{Environment, RateReading};
use crate::error::Error;
use crate::global;
use crate::global::{Asked, GlobalView, Startup, StartupView};
use crate::level::LogLevel;
use crate::monitor;
use crate::monitor::{MonitorView, PanicNotice};
use crate::telemetry;
use crate::telemetry::{LogEntry, StatusView};
use crate::text;

verus! {

/// A start keeps the configuration that it is given, and gives a notice exactly
/// where that has no token; the notice names the service.
pub proof fn start_keeps_its_configuration(config: ConfigView)
    ensures
        ({
            let startup = global::startup_with(config);
            &&& startup.config == config
            &&& config.token is Some ==> startup.notices.len() == 0
            &&& config.token is None ==> startup.notices.len() == 1 && startup.notices[0]
                == "[Middle-Monitor] initialized without token: service="@ + config.service
        }),
        global::startup_from_env(Ok(config)) == global::startup_with(config),
{
}

/// Where the environment sets no configuration, the client is started for a
/// local endpoint, and the mistake is told first.
pub proof fn mistaken_environment_starts_a_local_client(message: Seq<char>)
    ensures
        ({
            let startup = global::startup_from_env(Err(message));
            &&& startup.config == config::config_for("http://localhost:8080"@, "unknown"@, None)
            &&& startup.notices.len() == 2
            &&& startup.notices[0] == "[Middle-Monitor] failed to load config from env: "@
                + message
            &&& startup.notices[1]
                == "[Middle-Monitor] initialized without token: service=unknown"@
        }),
{
    reveal_strlit("[Middle-Monitor] initialized without token: service=");
    reveal_strlit("[Middle-Monitor] initialized without token: service=unknown");
    reveal_strlit("unknown");
    let startup = global::startup_from_env(Err(message));
    assert(startup.notices[1]
        =~= "[Middle-Monitor] initialized without token: service=unknown"@);
}

/// A start from the environment is one with the configuration that it sets, or
/// tells what is wrong with it.
pub proof fn start_follows_the_environment(env: &Environment, reading: &RateReading)
    ensures
        ({
            let found = env::env_config(env.vars@, reading.value, reading.shown@);
            let startup = global::env_startup(env, reading);
            &&& found matches Ok(config) ==> startup == global::startup_with(config)
            &&& found matches Err(message) ==> startup.notices.len() == 2 && startup.notices[0]
                == "[Middle-Monitor] failed to load config from env: "@ + message
        }),
{
}

/// The first start comes back as given, and is remembered; it puts no client in
/// place by itself.
pub proof fn first_start_comes_back(
    before: GlobalView,
    after: GlobalView,
    startup: StartupView,
    result: Option<Startup>,
)
    requires
        !before.started,
        global::starts_once(before, after, startup, result),
    ensures
        result matches Some(s) && s@ == startup,
        after.started,
        after.client == before.client,
{
}

/// A call on a client that was never started starts it first; a call on one that
/// was is answered and changes nothing.
pub proof fn call_starts_an_unused_client<T>(
    before: GlobalView,
    after: GlobalView,
    startup: StartupView,
    reply: Asked<T>,
)
    requires
        global::asks_first(before, after, startup, reply),
    ensures
        reply is Start <==> before.client is None && !before.started,
        reply matches Asked::Start(s) ==> s@ == startup && after.started && after.client is None,
        reply is Done ==> after == before,
{
}

/// A client that is put in place has its pipeline exactly where that was built.
pub proof fn client_in_place_has_what_was_built(
    state: GlobalView,
    config: ConfigView,
    outcome: PipelineOutcome,
)
    requires
        state.client is None,
    ensures
        ({
            let placed = global::installed(state, config, outcome);
            &&& placed.started
            &&& placed.client matches Some(c) && c.config == config && c.client.config == config
                && c.client.initialized == (outcome is Ready) && c.client.logger_provider == (
            outcome is Ready) && c.client.tracer == !(outcome is TracerFailed)
        }),
{
}

/// An error that goes through a shared client with its pipeline is reported with
/// its message and type, and with no place, where errors are always sampled.
pub proof fn shared_client_reports_errors(
    shared: MonitorView,
    message: Seq<char>,
    error_type: Seq<char>,
    result: Result<Option<ErrorReport>, Error>,
)
    requires
        global::error_reported(Some(shared), message, error_type, result),
        shared.client.initialized,
        shared.client.config.sampling.traces.always_sample_errors,
    ensures
        result is Ok,
        result->Ok_0 is Some,
        ({
            let span = result->Ok_0->0@.span;
            &&& span.status == StatusView::Failed(message)
            &&& span.attributes.contains(telemetry::text_attribute("error.type"@, error_type))
            &&& span.attributes.contains(telemetry::text_attribute("error.file"@, "unknown"@))
            &&& span.attributes.contains(telemetry::integer_attribute("error.line"@, 0))
        }),
{
    let f = Failure { message, error_type, file: None, line: None, http: None };
    super::reports::span_tells_all_that_is_known(f, shared.client.config.service);
}

/// An error with its place is reported with that place, from every file that
/// holds no mark, and passed over from the others.
pub proof fn shared_client_reports_errors_in_their_place(
    shared: MonitorView,
    message: Seq<char>,
    file: Seq<char>,
    line: i32,
    error_type: Seq<char>,
    result: Result<Option<ErrorReport>, Error>,
)
    requires
        global::detailed_error_reported(Some(shared), message, file, line, error_type, result),
        shared.client.initialized,
        shared.client.config.sampling.traces.always_sample_errors,
    ensures
        result is Ok,
        ({
            let unmarked = file.len() > 0 && forall|i: int|
                0 <= i < super::reports::marks().len() ==> !text::occurs_in(
                    file,
                    #[trigger] super::reports::marks()[i],
                );
            let span = result->Ok_0->0@.span;
            &&& result->Ok_0 is Some <==> unmarked
            &&& unmarked ==> span.status == StatusView::Failed(message)
            &&& unmarked ==> span.attributes.contains(
                telemetry::text_attribute("error.file"@, file),
            )
            &&& unmarked ==> span.attributes.contains(
                telemetry::integer_attribute(
                    "error.line"@,
                    monitor::unsigned_line(line) as int,
                ),
            )
            &&& unmarked ==> span.attributes.contains(
                telemetry::text_attribute("error.type"@, error_type),
            )
        }),
{
    let f = Failure {
        message,
        error_type,
        file: Some(file),
        line: Some(monitor::unsigned_line(line)),
        http: None,
    };
    super::reports::only_files_of_others_are_passed_over(shared.client, file, f, result);
    super::reports::span_tells_all_that_is_known(f, shared.client.config.service);
}

/// A panic is reported from whatever file it was raised in.
pub proof fn shared_client_reports_panics_from_every_file(
    shared: MonitorView,
    notice: PanicNotice,
    error_type: Seq<char>,
    result: Result<Option<ErrorReport>, Error>,
)
    requires
        global::panic_reported(Some(shared), notice, error_type, result),
        shared.client.initialized,
        shared.client.config.sampling.traces.always_sample_errors,
    ensures
        result is Ok,
        result->Ok_0 is Some,
        result->Ok_0->0@ == monitor::panic_failure(notice, error_type).report(
            shared.client.config,
        ),
{
}

/// A message goes through a shared client exactly where its pipeline stands, and
/// comes out with its level, its text and the pairs; without a client nothing is
/// made of it.
pub proof fn shared_client_logs_messages(
    shared: Option<MonitorView>,
    level: LogLevel,
    message: Seq<char>,
    pairs: Seq<(Seq<char>, Seq<char>)>,
    entry: Result<Option<LogEntry>, Error>,
)
    requires
        global::message_logged(shared, level, message, pairs, entry),
    ensures
        shared is None ==> entry is Ok && entry->Ok_0 is None,
        shared matches Some(c) ==> {
            &&& entry is Ok <==> c.client.initialized
            &&& entry matches Err(e) ==> e is NotInitialized
            &&& entry is Ok ==> {
                let made = entry->Ok_0->0@;
                &&& entry->Ok_0 is Some
                &&& made.body == message
                &&& made.severity_text == level.name()
                &&& made.attributes.len() == 1 + pairs.len()
                &&& made.attributes[0] == telemetry::text_attribute(
                    "service.name"@,
                    c.client.config.service,
                )
                &&& forall|i: int|
                    0 <= i < pairs.len() ==> made.attributes[i + 1] == telemetry::text_attribute(
                        (#[trigger] pairs[i]).0,
                        pairs[i].1,
                    )
            }
        },
{
    if let Some(c) = shared {
        super::reports::log_entry_tells_all_it_was_given(
            c.client.config.service,
            level,
            message,
            pairs,
        );
    }
}

/// Shutting the shared client down changes nothing but its pipeline.
pub proof fn shutdown_keeps_the_shared_client(state: GlobalView)
    ensures
        global::shut_down(state).started == state.started,
        global::shut_down(state).client is Some <==> state.client is Some,
        state.client matches Some(c) ==> global::shut_down(state).client == Some(
            (MonitorView { config: c.config, client: client::after_shutdown(c.client) }),
        ),
{
}

} // verus!
