//! Laws of clients, of the errors that they report and of log entries.

use vstd::prelude::*;

use crate::client;
use crate::client::{
    ClientView, ErrorReport, Failure, HttpContext, PipelineOutcome, PipelinePlan, ShutdownPlan,
};
use crate::config;
use crate::config::ConfigView;
use crate::error::Error;
use crate::json;
use crate::json::Json;
use crate::level::LogLevel;
use crate::monitor;
use crate::monitor::{PanicNotice, PanicPayload};
use crate::telemetry;
use crate::telemetry::{LogEntry, Severity, SpanKind, StatusView};
use crate::text;

verus! {

/// 1 for a value that is there, 0 for one that is not.
pub open spec fn counted<T>(value: Option<T>) -> nat {
    if value is Some {
        1
    } else {
        0
    }
}

/// The marks of files that are not of the application.
pub open spec fn marks() -> Seq<Seq<char>> {
    seq![
        "/.cargo/"@,
        "/rustc/"@,
        "/target/"@,
        "/vendor/"@,
        "/node_modules/"@,
        "libstd"@,
        "libcore"@,
        "liballoc"@,
        "_test.rs"@,
        ".gen.rs"@,
    ]
}

/// The message of an error of the client holds the reason where one was given:
/// behind a heading where initialization failed, and alone for a configuration.
pub proof fn error_message_holds_its_reason(reason: String)
    ensures
        ({
            let init = Error::Init(reason).message();
            let heading = init.len() - reason@.len();
            &&& heading == "initialization failed: "@.len()
            &&& init.take(heading) == "initialization failed: "@
            &&& init.skip(heading) == reason@
        }),
        Error::Config(reason).message() == reason@,
        Error::NotInitialized.message() == "client not initialized"@,
        Error::TracerUnavailable.message() == "tracer not available"@,
{
    let heading = "initialization failed: "@;
    let init = Error::Init(reason).message();
    assert(init.take(heading.len() as int) =~= heading);
    assert(init.skip(heading.len() as int) =~= reason@);
}

/// Only an object has members, and only a text among them is read as one.
pub proof fn member_is_read_where_it_is_a_text(
    members: Map<Seq<char>, Json>,
    key: Seq<char>,
    value: Json,
)
    ensures
        json::text_member(Json::Object(members), key) is Some <==> members.contains_key(key)
            && members[key] is Text,
        members.contains_key(key) && members[key] is Text ==> Json::Text(
            json::text_member(Json::Object(members), key)->0,
        ) == members[key],
        !(value is Object) ==> json::text_member(value, key) is None,
{
}

/// The text of a status is a heading of five characters with the number behind
/// it, which can be read back.
pub proof fn status_text_reads_back(status: u16, other: u16)
    ensures
        client::status_text(status).take(5) == "HTTP "@,
        text::parsed_unsigned(client::status_text(status).skip(5), 65535) == Some(status as nat),
        client::status_text(status) == client::status_text(other) ==> status == other,
{
    reveal_strlit("HTTP ");
    text::decimal_reads_back(status as nat, 65535);
    text::decimal_reads_back(other as nat, 65535);
    let t = client::status_text(status);
    assert(t.take(5) =~= "HTTP "@);
    assert(t.skip(5) =~= text::decimal(status as nat));
    assert(client::status_text(other).skip(5) =~= text::decimal(other as nat));
}

/// What the body of a failed response says under `error` is its message,
/// whatever its status is.
pub proof fn body_that_says_something_is_the_message(
    body: Seq<u8>,
    members: Map<Seq<char>, Json>,
    said: Seq<char>,
    status: u16,
)
    requires
        body.len() > 0,
        json::json_read(body) == Some(Json::Object(members)),
        members.contains_key("error"@),
        members["error"@] == Json::Text(said),
        said.len() > 0,
    ensures
        client::body_message(body, status) == said,
        client::exception_message(Some(said), status) == said,
{
}

/// The status is the message of a failed response whose body says nothing: which
/// is empty, no JSON, no object, or an object without a text under `error`.
pub proof fn body_that_says_nothing_leaves_the_status(body: Seq<u8>, status: u16)
    requires
        body.len() == 0 || match json::json_read(body) {
            Some(Json::Object(members)) => !members.contains_key("error"@) || match members[
                "error"@] {
                Json::Text(said) => said.len() == 0,
                _ => true,
            },
            _ => true,
        },
    ensures
        client::body_message(body, status) == client::status_text(status),
        client::exception_message(None, status) == client::status_text(status),
        client::exception_message(Some(Seq::empty()), status) == client::status_text(status),
{
}

/// Building a pipeline brings the parts that were built, keeps those that stood,
/// and initializes the client where both were built. The configuration stays.
pub proof fn building_brings_what_was_built(
    client: ClientView,
    outcome: PipelineOutcome,
    reason: String,
)
    requires
        !client.initialized,
    ensures
        client::after_init(client, outcome).config == client.config,
        client::after_init(client, PipelineOutcome::TracerFailed(reason)) == client,
        ({
            let half = client::after_init(client, PipelineOutcome::LoggerFailed(reason));
            &&& half.tracer && half.provider && !half.initialized
            &&& half.logger_provider == client.logger_provider
        }),
        ({
            let whole = client::after_init(client, PipelineOutcome::Ready);
            whole.tracer && whole.provider && whole.logger_provider && whole.initialized
        }),
{
}

/// A client that was just made has no pipeline. Shutting a client down takes its
/// providers away and leaves its tracer and its configuration.
pub proof fn shutting_down_takes_the_providers(client: ClientView, config: ConfigView)
    ensures
        ({
            let fresh = client::new_client(config);
            &&& fresh.config == config
            &&& !fresh.tracer && !fresh.provider && !fresh.logger_provider && !fresh.initialized
        }),
        ({
            let down = client::after_shutdown(client);
            &&& !down.provider && !down.logger_provider && !down.initialized
            &&& down.tracer == client.tracer
            &&& down.config == client.config
        }),
{
}

/// A pipeline exports traces and logs to two paths under one address, for the
/// service, and with the token as its only header where there is one.
pub proof fn pipeline_has_two_paths_under_one_address(config: ConfigView)
    ensures
        ({
            let plan = client::pipeline_for(config);
            let base = client::export_base(config.endpoint);
            &&& plan.traces_url == base + "/v1/traces"@
            &&& plan.logs_url == base + "/v1/logs"@
            &&& plan.service == config.service
            &&& plan.headers.len() == counted(config.token)
            &&& config.token matches Some(token) ==> plan.headers[0].0 == "Authorization"@
                && plan.headers[0].1 == "Bearer "@ + token
        }),
{
}

/// An endpoint that ends in the path of no signal is the address that is
/// exported to, whatever it holds before its end.
pub proof fn endpoint_without_signal_path_stays(endpoint: Seq<char>)
    requires
        !"/v1/traces"@.is_suffix_of(endpoint),
        !"/v1/logs"@.is_suffix_of(endpoint),
    ensures
        client::export_base(endpoint) == endpoint,
{
}

/// Where an endpoint ends in the path of a signal, what stands before the first
/// copy of the path stays, and so on behind it.
pub proof fn every_copy_of_the_signal_path_goes(
    before: Seq<char>,
    mark: Seq<char>,
    behind: Seq<char>,
)
    requires
        mark == "/v1/traces"@ || mark == "/v1/logs"@,
        forall|j: int| 0 <= j < before.len() ==> !text::occurs_at(before + mark + behind, mark, j),
        mark.is_suffix_of(behind),
    ensures
        client::export_base(before + mark + behind) == before + client::export_base(behind),
{
    reveal_strlit("/v1/traces");
    reveal_strlit("/v1/logs");
    let whole = before + mark + behind;
    let n = mark.len() as int;
    super::text::removal_goes_from_left_to_right(before, mark, behind);
    assert(whole.subrange(whole.len() - n, whole.len() as int) =~= behind.subrange(
        behind.len() - n,
        behind.len() as int,
    ));
    if mark == "/v1/logs"@ {
        lemma_one_path_at_the_end(whole);
        lemma_one_path_at_the_end(behind);
    }
}

proof fn lemma_one_path_at_the_end(s: Seq<char>)
    requires
        "/v1/logs"@.is_suffix_of(s),
    ensures
        !"/v1/traces"@.is_suffix_of(s),
{
    reveal_strlit("/v1/traces");
    reveal_strlit("/v1/logs");
    let n = s.len() as int;
    assert(s.subrange(n - 8, n)[6] == s[n - 2]);
    assert("/v1/logs"@[6] == 'g');
    if "/v1/traces"@.is_suffix_of(s) {
        assert(s.subrange(n - 10, n)[8] == s[n - 2]);
        assert("/v1/traces"@[8] == 'e');
    }
}

/// A log entry has the message as its body, the level by severity and name, the
/// service first among its attributes, and then the pairs in their order.
pub proof fn log_entry_tells_all_it_was_given(
    service: Seq<char>,
    level: LogLevel,
    message: Seq<char>,
    pairs: Seq<(Seq<char>, Seq<char>)>,
)
    ensures
        ({
            let entry = client::log_entry(service, level, message, pairs);
            &&& entry.body == message
            &&& entry.severity == telemetry::severity_of(level)
            &&& entry.severity_text == level.name()
            &&& entry.attributes.len() == 1 + pairs.len()
            &&& entry.attributes[0] == telemetry::text_attribute("service.name"@, service)
            &&& forall|i: int|
                0 <= i < pairs.len() ==> entry.attributes[i + 1] == telemetry::text_attribute(
                    (#[trigger] pairs[i]).0,
                    pairs[i].1,
                )
        }),
{
}

/// Levels are told apart by their severities, but for the two gravest; each
/// severity but theirs bears the name of its level.
pub proof fn severities_follow_levels(one: LogLevel, other: LogLevel)
    ensures
        telemetry::severity_of(one) == telemetry::severity_of(other) ==> one == other || (
        telemetry::severity_of(one) is Fatal && (one is Fatal || one is Panic) && (other is Fatal
            || other is Panic)),
        telemetry::severity_of(LogLevel::Debug) == Severity::Debug,
        telemetry::severity_of(LogLevel::Info) == Severity::Info,
        telemetry::severity_of(LogLevel::Warn) == Severity::Warn,
        telemetry::severity_of(LogLevel::Error) == Severity::Error,
        telemetry::severity_of(LogLevel::Panic) == telemetry::severity_of(LogLevel::Fatal),
{
}

/// The span of an error tells its message, type, place and service, and what is
/// known of its request, each under a key of its own; and it ends as failed with
/// the message.
pub proof fn span_tells_all_that_is_known(f: Failure, service: Seq<char>)
    ensures
        ({
            let span = f.span(service);
            let told = span.attributes;
            let http = f.http;
            &&& span.name == "error.report"@
            &&& span.kind == SpanKind::Internal
            &&& span.status == StatusView::Failed(f.message)
            &&& told.contains(telemetry::text_attribute("error.message"@, f.message))
            &&& told.contains(telemetry::text_attribute("error.type"@, f.error_type))
            &&& told.contains(telemetry::text_attribute("service.name"@, service))
            &&& f.file matches Some(file) ==> told.contains(
                telemetry::text_attribute("error.file"@, file),
            )
            &&& f.file is None ==> told.contains(
                telemetry::text_attribute("error.file"@, "unknown"@),
            )
            &&& f.line matches Some(line) ==> told.contains(
                telemetry::integer_attribute("error.line"@, line as int),
            )
            &&& f.line is None ==> told.contains(telemetry::integer_attribute("error.line"@, 0))
            &&& http is None ==> told.len() == 5
            &&& http matches Some(h) ==> {
                &&& told.len() == 5 + counted(h.method) + counted(h.url) + counted(h.status_code)
                &&& h.method matches Some(method) ==> told.contains(
                    telemetry::text_attribute("http.method"@, method),
                )
                &&& h.url matches Some(url) ==> told.contains(
                    telemetry::text_attribute("http.url"@, url),
                )
                &&& h.status_code matches Some(status) ==> told.contains(
                    telemetry::integer_attribute("http.status_code"@, status as int),
                )
            }
        }),
{
    let told = f.span(service).attributes;
    assert(told[0] == telemetry::text_attribute("error.message"@, f.message));
    assert(told[1] == telemetry::text_attribute("error.type"@, f.error_type));
    assert(told[2] == telemetry::text_attribute("error.file"@, f.file_text()));
    assert(told[3] == telemetry::integer_attribute("error.line"@, f.line_number() as int));
    assert(told[4] == telemetry::text_attribute("service.name"@, service));
    if let Some(h) = f.http {
        let at_url = 5 + counted(h.method);
        let at_status = at_url + counted(h.url);
        if let Some(method) = h.method {
            assert(told[5] == telemetry::text_attribute("http.method"@, method));
        }
        if let Some(url) = h.url {
            assert(told[at_url as int] == telemetry::text_attribute("http.url"@, url));
        }
        if let Some(status) = h.status_code {
            assert(told[at_status as int] == telemetry::integer_attribute(
                "http.status_code"@,
                status as int,
            ));
        }
    }
}

/// The log entry of an error tells the same in texts; numbers can be read back.
pub proof fn log_tells_all_that_is_known(f: Failure)
    ensures
        ({
            let told = f.log_pairs();
            let http = f.http;
            let line = match f.line {
                Some(l) => l as nat,
                None => 0,
            };
            &&& told.contains(("error.type"@, f.error_type))
            &&& f.file matches Some(file) ==> told.contains(("error.file"@, file))
            &&& f.file is None ==> told.contains(("error.file"@, "unknown"@))
            &&& exists|t: Seq<char>|
                #[trigger] told.contains(("error.line"@, t)) && text::parsed_unsigned(
                    t,
                    u32::MAX as nat,
                ) == Some(line)
            &&& http is None ==> told.len() == 3
            &&& http matches Some(h) ==> {
                &&& told.len() == 3 + counted(h.method) + counted(h.url) + counted(h.status_code)
                &&& h.method matches Some(method) ==> told.contains(("http.method"@, method))
                &&& h.url matches Some(url) ==> told.contains(("http.url"@, url))
                &&& h.status_code matches Some(status) ==> exists|t: Seq<char>|
                    #[trigger] told.contains(("http.status_code"@, t)) && text::parsed_unsigned(
                        t,
                        u16::MAX as nat,
                    ) == Some(status as nat)
            }
        }),
{
    let told = f.log_pairs();
    let line = f.line_number() as nat;
    text::decimal_reads_back(line, u32::MAX as nat);
    assert(told[0] == ("error.type"@, f.error_type));
    assert(told[1] == ("error.file"@, f.file_text()));
    assert(told[2] == ("error.line"@, text::decimal(line)));
    assert(told.contains(("error.line"@, text::decimal(line))));
    if let Some(h) = f.http {
        let at_url = 3 + counted(h.method);
        let at_status = at_url + counted(h.url);
        if let Some(method) = h.method {
            assert(told[3] == ("http.method"@, method));
        }
        if let Some(url) = h.url {
            assert(told[at_url as int] == ("http.url"@, url));
        }
        if let Some(status) = h.status_code {
            let t = text::decimal(status as nat);
            text::decimal_reads_back(status as nat, u16::MAX as nat);
            assert(told[at_status as int] == ("http.status_code"@, t));
            assert(told.contains(("http.status_code"@, t)));
        }
    }
}

/// Sampling looks at the URL and the status of the request of an error, and
/// takes an empty route and no status where they are not known.
pub proof fn error_is_sampled_by_its_request(f: Failure)
    ensures
        f.http matches Some(h) ==> {
            &&& h.url matches Some(url) ==> f.route() == url
            &&& h.url is None ==> f.route().len() == 0
            &&& h.status_code matches Some(status) ==> f.status() == status
            &&& h.status_code is None ==> f.status() == 0
        },
        f.http is None ==> f.route().len() == 0 && f.status() == 0,
{
}

/// The report of an error has its span, and its log entry with the same message
/// at the level of errors exactly where such an entry is kept.
pub proof fn report_joins_span_and_log(f: Failure, config: ConfigView)
    ensures
        ({
            let report = f.report(config);
            &&& report.span == f.span(config.service)
            &&& report.log is Some <==> config::log_kept(
                config.sampling.logs,
                f.route(),
                LogLevel::Error,
                f.status(),
                true,
            )
            &&& report.log matches Some(entry) ==> {
                &&& report.span.status == StatusView::Failed(entry.body)
                &&& entry.severity == Severity::Error
                &&& entry.severity_text == "ERROR"@
                &&& entry.attributes.len() == 1 + f.log_pairs().len()
                &&& entry.attributes[0] == telemetry::text_attribute(
                    "service.name"@,
                    config.service,
                )
                &&& forall|i: int|
                    0 <= i < f.log_pairs().len() ==> entry.attributes[i + 1]
                        == telemetry::text_attribute(
                        (#[trigger] f.log_pairs()[i]).0,
                        f.log_pairs()[i].1,
                    )
            }
        }),
{
    log_entry_tells_all_it_was_given(config.service, LogLevel::Error, f.message, f.log_pairs());
}

/// A client with its pipeline reports an error exactly where its trace is kept,
/// and a client without one refuses it. The report is that of the error.
pub proof fn report_comes_where_the_trace_is_kept(
    client: ClientView,
    kept: bool,
    f: Failure,
    result: Result<Option<ErrorReport>, Error>,
)
    requires
        client::report_made(client, kept, f, result),
    ensures
        result is Err <==> !client.initialized,
        result matches Err(e) ==> e is NotInitialized,
        client.initialized ==> (result->Ok_0 is Some <==> kept),
        client.initialized && kept ==> result->Ok_0->0@ == f.report(client.config),
{
}

/// What the sampling rules settle about an error's trace settles its report.
pub proof fn settled_trace_settles_the_report(
    client: ClientView,
    kept: bool,
    f: Failure,
    result: Result<Option<ErrorReport>, Error>,
)
    requires
        client.initialized,
        config::trace_rule(client.config.sampling.traces, f.route(), true) == Some(kept),
        client::report_follows(client, f, result),
    ensures
        result is Ok,
        result->Ok_0 is Some <==> kept,
        kept ==> result->Ok_0->0@.span.status == StatusView::Failed(f.message),
{
}

/// A file is one of the application exactly where its path is not empty and holds
/// none of the marks.
pub proof fn unmarked_files_are_of_the_application(file: Seq<char>)
    ensures
        monitor::application_file(file) <==> file.len() > 0 && forall|i: int|
            0 <= i < marks().len() ==> !text::occurs_in(file, #[trigger] marks()[i]),
{
    let all = marks();
    assert(all[0] == "/.cargo/"@ && all[1] == "/rustc/"@ && all[2] == "/target/"@);
    assert(all[3] == "/vendor/"@ && all[4] == "/node_modules/"@ && all[5] == "libstd"@);
    assert(all[6] == "libcore"@ && all[7] == "liballoc"@ && all[8] == "_test.rs"@);
    assert(all[9] == ".gen.rs"@);
}

/// Every part of the path of a file of the application would be one too: only
/// what a path holds can keep it out.
pub proof fn part_of_an_application_path_is_one(
    before: Seq<char>,
    file: Seq<char>,
    behind: Seq<char>,
)
    requires
        monitor::application_file(before + file + behind),
        file.len() > 0,
    ensures
        monitor::application_file(file),
{
    let whole = before + file + behind;
    unmarked_files_are_of_the_application(whole);
    unmarked_files_are_of_the_application(file);
    assert forall|i: int| 0 <= i < marks().len() implies !text::occurs_in(
        file,
        #[trigger] marks()[i],
    ) by {
        let mark = marks()[i];
        if text::occurs_in(file, mark) {
            let j = choose|j: int| text::occurs_at(file, mark, j);
            let at = before.len() + j;
            assert(whole.subrange(at, at + mark.len()) =~= file.subrange(j, j + mark.len()));
            assert(text::occurs_at(whole, mark, at));
        }
    }
}

/// An error in a file of the application is treated like any other; one in
/// another file is passed over, whatever the client is.
pub proof fn only_files_of_others_are_passed_over(
    client: ClientView,
    file: Seq<char>,
    f: Failure,
    result: Result<Option<ErrorReport>, Error>,
)
    requires
        monitor::filtered_report(client, file, f, result),
    ensures
        ({
            let unmarked = file.len() > 0 && forall|i: int|
                0 <= i < marks().len() ==> !text::occurs_in(file, #[trigger] marks()[i]);
            &&& unmarked ==> client::report_follows(client, f, result)
            &&& !unmarked ==> result is Ok && result->Ok_0 is None
            &&& unmarked && client.initialized && client.config.sampling.traces.always_sample_errors
                ==> result is Ok && result->Ok_0 is Some && result->Ok_0->0@ == f.report(
                client.config,
            )
        }),
{
    unmarked_files_are_of_the_application(file);
}

/// A line keeps its bits: the unsigned line differs from the signed one by a
/// multiple of 2<sup>32</sup>, which is none for lines from 0 up.
pub proof fn line_keeps_its_bits(line: i32)
    ensures
        (monitor::unsigned_line(line) - line) % 0x1_0000_0000 == 0,
        line >= 0 ==> monitor::unsigned_line(line) == line,
        monitor::unsigned_opt_line(Some(line)) == Some(monitor::unsigned_line(line)),
        monitor::unsigned_opt_line(None) is None,
{
}

/// The message of an error with a name is the name, a colon and a space, and the
/// message.
pub proof fn named_message_has_both_parts(name: Seq<char>, message: Seq<char>)
    ensures
        ({
            let whole = monitor::named_message(name, message);
            let n = name.len() as int;
            &&& whole.len() == n + 2 + message.len()
            &&& whole.take(n) == name
            &&& whole[n] == ':' && whole[n + 1] == ' '
            &&& whole.skip(n + 2) == message
        }),
{
    reveal_strlit(": ");
    let whole = monitor::named_message(name, message);
    let n = name.len() as int;
    assert(": "@.len() == 2 && ": "@[0] == ':' && ": "@[1] == ' ');
    assert(whole.take(n) =~= name);
    assert(whole.skip(n + 2) =~= message);
}

/// An error is reported with what the caller told of it: message, type and place
/// as they were given, and the request as it was given, without a status.
pub proof fn error_is_what_the_caller_told(
    name: Seq<char>,
    message: Seq<char>,
    error_type: Seq<char>,
    file: Seq<char>,
    line: i32,
    method: Option<Seq<char>>,
    url: Option<Seq<char>>,
    headers: Option<Seq<char>>,
    body: Option<Seq<char>>,
)
    ensures
        ({
            let f = monitor::plain_failure(message, error_type, Some(file), Some(line));
            &&& f.message == message
            &&& f.error_type == error_type
            &&& f.file == Some(file)
            &&& f.line == Some(monitor::unsigned_line(line))
            &&& f.http is None
        }),
        ({
            let f = monitor::plain_failure(message, error_type, None, None);
            f.message == message && f.error_type == error_type && f.file is None && f.line is None
        }),
        ({
            let f = monitor::custom_failure(name, message, file, line, error_type);
            &&& f.message == monitor::named_message(name, message)
            &&& f.error_type == error_type
            &&& f.file == Some(file)
            &&& f.line == Some(monitor::unsigned_line(line))
            &&& f.http is None
        }),
        ({
            let request = monitor::request_view(method, url, headers, body);
            &&& request.method == method
            &&& request.url == url
            &&& request.status_code is None
            &&& request.headers == headers
            &&& request.body == body
        }),
{
}

/// The arguments of a report are taken over as they are.
pub proof fn report_takes_its_arguments_over(
    message: &str,
    error_type: &str,
    file: Option<&str>,
    line: Option<u32>,
    context: &HttpContext,
)
    ensures
        ({
            let f = client::failure(message, error_type, file, line, Some(context));
            let http = f.http->0;
            &&& f.message == message@
            &&& f.error_type == error_type@
            &&& file matches Some(name) ==> f.file == Some(name@)
            &&& file is None ==> f.file is None
            &&& f.line == line
            &&& f.http is Some
            &&& http.status_code == context.status_code
            &&& context.method matches Some(method) ==> http.method == Some(method@)
            &&& context.method is None ==> http.method is None
            &&& context.url matches Some(url) ==> http.url == Some(url@)
            &&& context.url is None ==> http.url is None
        }),
        client::failure(message, error_type, file, line, None).http is None,
{
}

/// A message is logged exactly by a client with its pipeline, and the entry is
/// that of the message.
pub proof fn message_is_logged_with_the_pipeline(
    client: ClientView,
    level: LogLevel,
    message: Seq<char>,
    pairs: Seq<(Seq<char>, Seq<char>)>,
    entry: Result<LogEntry, Error>,
)
    requires
        client::log_made(client, level, message, pairs, entry),
    ensures
        entry is Ok <==> client.initialized,
        entry matches Err(e) ==> e is NotInitialized,
        entry matches Ok(e) ==> e@.body == message && e@.severity_text == level.name()
            && e@.severity == telemetry::severity_of(level) && e@.attributes.len() == 1
            + pairs.len(),
{
}

/// A client plans its pipeline exactly where it does not stand; it answers that
/// it stands, or the reason for which it was not built; and it has those parts
/// shut down that stand, each on its own.
pub proof fn pipeline_is_planned_answered_and_taken_down(
    client: ClientView,
    plan: Option<PipelinePlan>,
    outcome: PipelineOutcome,
    result: Result<(), String>,
    down: ShutdownPlan,
)
    requires
        client::plan_follows(client, plan),
        client::init_answers(client::after_init(client, outcome), outcome, result),
        client::shutdown_follows(client, down),
    ensures
        plan is None <==> client.initialized,
        plan matches Some(p) ==> p@ == client::pipeline_for(client.config),
        result is Ok <==> client.initialized || outcome is Ready,
        !client.initialized ==> (outcome matches PipelineOutcome::TracerFailed(reason)
            ==> result->Err_0@ == reason@),
        !client.initialized ==> (outcome matches PipelineOutcome::LoggerFailed(reason)
            ==> result->Err_0@ == reason@),
        down.tracer_provider <==> client.provider,
        down.logger_provider <==> client.logger_provider,
{
}

/// A panic is an error with the message that it was raised with, or a message of
/// its own for a payload that is none, in the place where it was raised.
pub proof fn panic_is_an_error_in_its_place(notice: PanicNotice, error_type: Seq<char>)
    ensures
        ({
            let f = monitor::panic_failure(notice, error_type);
            &&& f.message.take(7) == "Panic: "@
            &&& notice.payload matches PanicPayload::Message(said) ==> f.message.skip(7) == said@
            &&& notice.payload is Unknown ==> f.message.skip(7) == "Panic occurred"@
            &&& f.error_type == error_type
            &&& notice.file matches Some(file) ==> f.file == Some(file@)
            &&& notice.file is None ==> f.file == Some("unknown"@)
            &&& notice.line matches Some(line) ==> f.line == Some(line)
            &&& notice.line is None ==> f.line == Some(0u32)
            &&& f.http is None
        }),
{
    reveal_strlit("Panic: ");
    let f = monitor::panic_failure(notice, error_type);
    assert(f.message.take(7) =~= "Panic: "@);
    match notice.payload {
        PanicPayload::Message(said) => {
            assert(f.message.skip(7) =~= said@);
        },
        PanicPayload::Unknown => {
            assert(f.message.skip(7) =~= "Panic occurred"@);
        },
    }
}

/// A client gives a notice exactly where its pipeline was not built, and the
/// notice ends in the reason, whichever part failed.
pub proof fn notice_ends_in_the_reason(reason: String)
    ensures
        monitor::init_warning(PipelineOutcome::Ready) is None,
        monitor::init_warning(PipelineOutcome::TracerFailed(reason)) == monitor::init_warning(
            PipelineOutcome::LoggerFailed(reason),
        ),
        monitor::init_warning(PipelineOutcome::TracerFailed(reason)) matches Some(notice)
            && notice
            == "[Middle-Monitor] Warning: failed to initialize OpenTelemetry client: "@ + reason@,
{
}

} // verus!
