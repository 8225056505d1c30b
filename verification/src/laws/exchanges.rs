//! Laws of the exchanges of an axum service.

use vstd::prelude::*;

use crate::axum_middleware;
use crate::axum_middleware::{
    Action, Event, ReportPlan, RequestFacts, RequestTrace, SpanAction, Stage,
};
use crate::client;
use crate::config;
use crate::json;
use crate::json::Json;
use crate::monitor::MonitorView;
use crate::submission;
use crate::submission::Submission;
use crate::telemetry;
use crate::telemetry::{SpanKind, StatusView};
use crate::text;

verus! {

/// The route of a request is the pattern that fits it, and its path where no
/// pattern is known; method and URL are taken over.
pub proof fn request_is_known_by_its_pattern(
    method: Seq<char>,
    pattern: Seq<char>,
    path: Seq<char>,
    url: Seq<char>,
)
    ensures
        axum_middleware::incoming(method, Some(pattern), path, url).route == pattern,
        axum_middleware::incoming(method, None, path, url).route == path,
        axum_middleware::incoming(method, Some(pattern), path, url).method == method,
        axum_middleware::incoming(method, Some(pattern), path, url).url == url,
{
}

/// The span of a request is named after its method and route, and tells method,
/// route, URL, status and whether the request failed, which is so from status
/// 400 up; then the span says that it failed, and with which status.
pub proof fn request_span_tells_all_that_is_known(request: RequestFacts, status: u16)
    ensures
        ({
            let span = request.span(status);
            let n = request.method.len() as int;
            let told = span.attributes;
            &&& span.name.take(n) == request.method
            &&& span.name[n] == ' '
            &&& span.name.skip(n + 1) == request.route
            &&& span.name.len() == n + 1 + request.route.len()
            &&& span.kind == SpanKind::Server
            &&& told.len() == 5
            &&& told.contains(telemetry::text_attribute("http.method"@, request.method))
            &&& told.contains(telemetry::text_attribute("http.route"@, request.route))
            &&& told.contains(telemetry::text_attribute("http.url"@, request.url))
            &&& told.contains(telemetry::integer_attribute("http.status_code"@, status as int))
            &&& told.contains(telemetry::flag_attribute("error"@, status >= 400))
            &&& status < 400 ==> span.status is Succeeded
            &&& status >= 400 ==> span.status == StatusView::Failed(client::status_text(status))
        }),
{
    reveal_strlit(" ");
    let span = request.span(status);
    let n = request.method.len() as int;
    let told = span.attributes;
    assert(" "@.len() == 1 && " "@[0] == ' ');
    assert(span.name.take(n) =~= request.method);
    assert(span.name.skip(n + 1) =~= request.route);
    assert(told[0] == telemetry::text_attribute("http.method"@, request.method));
    assert(told[1] == telemetry::text_attribute("http.route"@, request.route));
    assert(told[2] == telemetry::text_attribute("http.url"@, request.url));
    assert(told[3] == telemetry::integer_attribute("http.status_code"@, status as int));
    assert(told[4] == telemetry::flag_attribute("error"@, status >= 400));
}

/// A sampled request has its span finished, whatever the status is. One that was
/// not sampled has a span recorded exactly for a server error that is kept.
pub proof fn span_follows_sampling_and_status(
    request: RequestFacts,
    sampled: bool,
    keep_error: bool,
    status: u16,
    action: SpanAction,
)
    requires
        axum_middleware::action_follows(request, sampled, keep_error, status, action),
    ensures
        action is Finish <==> sampled,
        action is Record <==> !sampled && status >= 500 && keep_error,
        action matches SpanAction::Record(span) ==> span@ == request.span(status),
        action matches SpanAction::Finish { attributes, status: end } ==> {
            let told = telemetry::attributes_of(attributes@);
            &&& told.len() == 2
            &&& told[0] == telemetry::integer_attribute("http.status_code"@, status as int)
            &&& told[1] == telemetry::flag_attribute("error"@, status >= 400)
            &&& end@ is Succeeded <==> status < 400
            &&& status >= 400 ==> end@ == StatusView::Failed(client::status_text(status))
        },
{
}

/// What the body of a failed response says under `error` is its message,
/// whatever its status is, where the body is no longer than what is searched.
pub proof fn message_is_what_the_body_says(
    body: Seq<u8>,
    members: Map<Seq<char>, Json>,
    said: Seq<char>,
    status: u16,
)
    requires
        0 < body.len() <= 4096,
        json::json_read(body) == Some(Json::Object(members)),
        members.contains_key("error"@),
        members["error"@] == Json::Text(said),
        said.len() > 0,
    ensures
        axum_middleware::read_message(Some(body), status) == said,
{
    super::reports::body_that_says_something_is_the_message(body, members, said, status);
}

/// Only the first 4096 bytes of a body count for the message, and a body that
/// was not read leaves the status.
pub proof fn message_is_in_the_first_bytes(start: Seq<u8>, rest: Seq<u8>, status: u16)
    requires
        start.len() == 4096,
    ensures
        axum_middleware::read_message(Some(start + rest), status) == axum_middleware::read_message(
            Some(start),
            status,
        ),
        axum_middleware::read_message(Some(start), status) == client::body_message(start, status),
        axum_middleware::read_message(None, status) == client::status_text(status),
{
    assert((start + rest).take(4096) =~= start);
    assert(start + rest =~= start || rest.len() > 0);
}

/// A body of at most 4096 bytes has the message that the whole of it gives.
pub proof fn short_body_counts_as_a_whole(body: Seq<u8>, status: u16)
    requires
        body.len() <= 4096,
    ensures
        axum_middleware::read_message(Some(body), status) == client::body_message(body, status),
{
}

/// The body of a server error is read exactly where its length is announced as a
/// number of at most 65536 bytes.
pub proof fn body_is_read_up_to_its_limit(status: u16, length: nat, written: Seq<char>)
    requires
        status >= 500,
        length <= u64::MAX,
    ensures
        ({
            let plan = axum_middleware::planned_report(
                false,
                status,
                Some(text::decimal(length)),
            );
            &&& length <= 65536 ==> plan == ReportPlan::ReadBody
            &&& length > 65536 ==> plan == ReportPlan::StatusOnly
        }),
        axum_middleware::planned_report(false, status, None) == ReportPlan::StatusOnly,
        text::parsed_unsigned(written, u64::MAX as nat) is None ==> axum_middleware::planned_report(
            false,
            status,
            Some(written),
        ) == ReportPlan::StatusOnly,
{
    text::decimal_reads_back(length, u64::MAX as nat);
}

/// A response that tells of no server error is not submitted, and none is where
/// submitting is disabled, whatever length it announces.
pub proof fn other_responses_are_left(
    disabled: bool,
    status: u16,
    content_length: Option<Seq<char>>,
)
    ensures
        axum_middleware::planned_report(disabled, status, content_length) == ReportPlan::Leave
            <==> status < 500 || disabled,
{
}

/// A request that comes in is known by its pattern from then on, and a span is
/// started for it exactly where it is sampled. Where the rules settle that for
/// its route, they decide.
pub proof fn arrival_follows_the_rules_for_the_route(
    client: MonitorView,
    method: String,
    matched: Option<String>,
    path: String,
    url: String,
    next: Stage,
    action: Action,
)
    requires
        axum_middleware::step_follows(
            client,
            Stage::Waiting,
            Event::Arrived { method, matched, path, url },
            next,
            action,
        ),
    ensures
        ({
            let route = match matched {
                Some(pattern) => pattern@,
                None => path@,
            };
            let request = next->InFlight_0;
            let rule = config::trace_rule(client.config.sampling.traces, route, false);
            &&& next is InFlight
            &&& request.method@ == method@
            &&& request.route@ == route
            &&& request.url@ == url@
            &&& action is Serve
            &&& action->open is Some <==> request.sampled
            &&& rule matches Some(kept) ==> request.sampled == kept
            &&& action->open matches Some(span) ==> {
                &&& span.name@ == method@ + " "@ + route
                &&& span.kind == SpanKind::Server
                &&& telemetry::attributes_of(span.attributes@) == seq![
                    telemetry::text_attribute("http.method"@, method@),
                    telemetry::text_attribute("http.route"@, route),
                    telemetry::text_attribute("http.url"@, url@),
                ]
            }
        }),
{
    let route = axum_middleware::routed(text::opt_text(matched), path@);
    let traces = client.config.sampling.traces;
    let draw = choose|draw: u64|
        axum_middleware::taken_in(
            axum_middleware::incoming(method@, text::opt_text(matched), path@, url@),
            #[trigger] config::trace_kept(traces, route, false, draw),
            next,
            action,
        );
    config::settled_before_the_draw(traces, route, false, draw);
}

/// A server error leaves a span where errors are always sampled: that of the
/// request where one was started, and otherwise one of its own. A response
/// without a server error leaves only the span that was started.
pub proof fn answer_settles_the_span(
    client: MonitorView,
    request: RequestTrace,
    status: u16,
    content_length: Option<String>,
    next: Stage,
    action: Action,
)
    requires
        axum_middleware::step_follows(
            client,
            Stage::InFlight(request),
            Event::Answered { status, content_length },
            next,
            action,
        ),
    ensures
        action is PassOn || action is ReadBody,
        ({
            let span = match action {
                Action::PassOn { span, .. } => span,
                Action::ReadBody { span } => span,
                _ => SpanAction::Skip,
            };
            let always = client.config.sampling.traces.always_sample_errors;
            &&& span is Finish <==> request.sampled
            &&& !request.sampled && status < 500 ==> span is Skip
            &&& !request.sampled && status >= 500 && always ==> span is Record
            &&& span matches SpanAction::Record(recorded) ==> recorded@ == request.known().span(
                status,
            )
        }),
{
    let traces = client.config.sampling.traces;
    let route = request.known().route;
    let draw = choose|draw: u64|
        axum_middleware::answer_taken(
            client,
            request,
            #[trigger] config::trace_kept(traces, route, true, draw),
            status,
            text::opt_text(content_length),
            next,
            action,
        );
    if traces.always_sample_errors {
        config::errors_are_always_kept(traces, route, draw);
    }
}

/// The submission of a failed request tells its message, method and URL, under
/// the name of HTTP errors.
pub proof fn request_is_submitted_with_its_message(
    client: MonitorView,
    request: RequestFacts,
    message: Seq<char>,
    sent: Submission,
)
    requires
        axum_middleware::submits_request(client, request, message, sent),
    ensures
        ({
            let payload = json::json_of(sent.payload);
            &&& json::text_member(payload, "message"@) == Some(message)
            &&& json::text_member(payload, "http_method"@) == Some(request.method)
            &&& json::text_member(payload, "http_url"@) == Some(request.url)
            &&& json::text_member(payload, "name"@) == Some("http"@)
            &&& json::text_member(payload, "file"@) == Some("handler"@)
            &&& json::text_member(payload, "service"@) == Some(client.client.config.service)
            &&& payload->Object_0["line"@] == Json::Integer(0)
            &&& !payload->Object_0.contains_key("http_body"@)
        }),
{
    let e = axum_middleware::request_error(request, message);
    let timestamp = choose|timestamp: Seq<char>|
        submission::utc_time(timestamp) && #[trigger] submission::submits(
            sent,
            client.client.config,
            e,
            timestamp,
        );
    super::submissions::submission_carries_the_error(sent, client.client.config, e, timestamp);
    super::submissions::payload_tells_all_that_is_known(
        e,
        client.client.config.service,
        timestamp,
        "line"@,
    );
}

/// A server error whose body says what is wrong is submitted with these words,
/// whatever its status is, and its body is passed on whole.
pub proof fn server_error_is_submitted_in_its_own_words(
    client: MonitorView,
    request: RequestTrace,
    status: u16,
    body: Vec<u8>,
    members: Map<Seq<char>, Json>,
    said: Seq<char>,
    next: Stage,
    action: Action,
)
    requires
        axum_middleware::step_follows(
            client,
            Stage::Reading(request, status),
            Event::BodyRead(Some(body)),
            next,
            action,
        ),
        0 < body@.len() <= 4096,
        json::json_read(body@) == Some(Json::Object(members)),
        members.contains_key("error"@),
        members["error"@] == Json::Text(said),
        said.len() > 0,
    ensures
        action matches Action::Reply { body: passed_on, submission: sent } && passed_on@ == body@
            && json::text_member(json::json_of(sent.payload), "message"@) == Some(said),
{
    message_is_what_the_body_says(body@, members, said, status);
    request_is_submitted_with_its_message(
        client,
        request.known(),
        said,
        action->Reply_submission,
    );
}

/// A body that was read gives the message of the submission, however long it is,
/// and is passed on as it was.
pub proof fn body_gives_the_message(
    client: MonitorView,
    request: RequestTrace,
    status: u16,
    body: Vec<u8>,
    next: Stage,
    action: Action,
)
    requires
        axum_middleware::step_follows(
            client,
            Stage::Reading(request, status),
            Event::BodyRead(Some(body)),
            next,
            action,
        ),
    ensures
        action matches Action::Reply { body: passed_on, submission: sent } && passed_on@ == body@
            && json::text_member(json::json_of(sent.payload), "message"@) == Some(
            if body@.len() <= 4096 {
                client::body_message(body@, status)
            } else {
                client::body_message(body@.take(4096), status)
            },
        ),
{
    if body@.len() > 4096 {
        message_is_in_the_first_bytes(body@.take(4096), body@.skip(4096), status);
        assert(body@.take(4096) + body@.skip(4096) =~= body@);
    } else {
        short_body_counts_as_a_whole(body@, status);
    }
    request_is_submitted_with_its_message(
        client,
        request.known(),
        axum_middleware::read_message(Some(body@), status),
        action->Reply_submission,
    );
}

/// A server error whose body says nothing is submitted with its status, and its
/// body is passed on whole.
pub proof fn wordless_server_error_is_submitted_by_its_status(
    client: MonitorView,
    request: RequestTrace,
    status: u16,
    body: Vec<u8>,
    next: Stage,
    action: Action,
)
    requires
        axum_middleware::step_follows(
            client,
            Stage::Reading(request, status),
            Event::BodyRead(Some(body)),
            next,
            action,
        ),
        body@.len() <= 4096,
        body@.len() == 0 || match json::json_read(body@) {
            Some(value) => json::text_member(value, "error"@) is None,
            None => true,
        },
    ensures
        action matches Action::Reply { body: passed_on, submission: sent } && passed_on@ == body@
            && json::text_member(json::json_of(sent.payload), "message"@) == Some(
            client::status_text(status),
        ),
{
    short_body_counts_as_a_whole(body@, status);
    super::reports::body_that_says_nothing_leaves_the_status(body@, status);
    request_is_submitted_with_its_message(
        client,
        request.known(),
        client::status_text(status),
        action->Reply_submission,
    );
}

/// A server error whose body stays unread or could not be read is submitted with
/// its status.
pub proof fn silent_server_error_is_submitted_by_its_status(
    client: MonitorView,
    request: RequestTrace,
    status: u16,
    content_length: Option<String>,
    answered: Stage,
    answer: Action,
    finished: Stage,
    reply: Action,
)
    requires
        axum_middleware::step_follows(
            client,
            Stage::InFlight(request),
            Event::Answered { status, content_length },
            answered,
            answer,
        ),
        axum_middleware::step_follows(
            client,
            Stage::Reading(request, status),
            Event::BodyRead(None),
            finished,
            reply,
        ),
    ensures
        answer matches Action::PassOn { span, report } ==> (report matches Some(sent)
            ==> json::text_member(json::json_of(sent.payload), "message"@) == Some(
            client::status_text(status),
        )),
        reply matches Action::Reply { body, submission: sent } && body@.len() == 0
            && json::text_member(json::json_of(sent.payload), "message"@) == Some(
            client::status_text(status),
        ),
{
    let words = client::status_text(status);
    if let Action::PassOn { span, report } = answer {
        if let Some(sent) = report {
            request_is_submitted_with_its_message(client, request.known(), words, sent);
        }
    }
    request_is_submitted_with_its_message(
        client,
        request.known(),
        words,
        reply->Reply_submission,
    );
}

/// A body that is read belongs to the request and the status that it answers.
pub proof fn reading_keeps_request_and_status(
    client: MonitorView,
    request: RequestTrace,
    status: u16,
    content_length: Option<String>,
    next: Stage,
    action: Action,
)
    requires
        axum_middleware::step_follows(
            client,
            Stage::InFlight(request),
            Event::Answered { status, content_length },
            next,
            action,
        ),
    ensures
        next is Reading || next is Finished,
        next matches Stage::Reading(r, s) ==> r == request && s == status && status >= 500,
{
}

/// An event that does not fit the stage of an exchange changes nothing.
pub proof fn events_out_of_turn_change_nothing(
    client: MonitorView,
    stage: Stage,
    event: Event,
    next: Stage,
    action: Action,
)
    requires
        axum_middleware::step_follows(client, stage, event, next, action),
        match stage {
            Stage::Waiting => !(event is Arrived),
            Stage::InFlight(_) => !(event is Answered),
            Stage::Reading(_, _) => !(event is BodyRead),
            Stage::Finished => true,
        },
    ensures
        next == stage,
        action is Ignore,
{
}

} // verus!
