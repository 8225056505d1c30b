//! What is recorded and submitted about the requests that an axum service
//! answers: one server span for each request that is sampled, marked as failed
//! from status 400 up, a span for a server error on a request that was not
//! sampled, and a submission for each server error.

use vstd::prelude::*;
use vstd::string::*;

use crate::client;
use crate::client::{get_message_from_exception_body, http_status_text};
use crate::config;
use crate::config::{should_sample_trace, Config, TracesView};
use crate::monitor::{MiddleMonitorClient, MonitorView};
use crate::submission;
use crate::submission::Submission;
use crate::telemetry;
use crate::telemetry::{
    Attribute, AttributeView, Span, SpanKind, SpanStatus, SpanView, StatusView,
};
use crate::text;

verus! {

/// How many bytes of a response are searched for a message.
pub const BODY_CAPTURE_LIMIT: usize = 4096;

/// The greatest length of a response that is read for its message.
pub const MAX_BUFFERED_RESPONSE: u64 = 65536;

/// A request on its way through the service.
#[derive(Debug)]
pub struct RequestTrace {
    pub method: String,
    pub route: String,
    pub url: String,
    /// A span was started when the request came in.
    pub sampled: bool,
}

/// What is known of a request when it comes in.
pub struct RequestFacts {
    pub method: Seq<char>,
    pub route: Seq<char>,
    pub url: Seq<char>,
}

/// What becomes of the span of a request once its response is there.
#[derive(Debug)]
pub enum SpanAction {
    /// The span that was started gets the attributes and ends with the status.
    Finish { attributes: Vec<Attribute>, status: SpanStatus },
    /// A span of its own is recorded for the error.
    Record(Span),
    /// There is no span.
    Skip,
}

/// How a response is submitted as an error.
#[derive(Debug, Clone, Copy, PartialEq, Eq, Structural)]
pub enum ReportPlan {
    /// It is not submitted.
    Leave,
    /// It is submitted by its status; its body stays unread.
    StatusOnly,
    /// Its body is read for a message and passed on.
    ReadBody,
}

/// A span that is started when a request comes in.
#[derive(Debug)]
pub struct OpenSpan {
    pub name: String,
    pub kind: SpanKind,
    pub attributes: Vec<Attribute>,
}

/// How far an exchange has come.
#[derive(Debug)]
pub enum Stage {
    /// No request has come in.
    Waiting,
    /// The service works on the request.
    InFlight(RequestTrace),
    /// The body of a response with the given status is read.
    Reading(RequestTrace, u16),
    /// The response is on its way.
    Finished,
}

/// What happens in an exchange.
#[derive(Debug)]
pub enum Event {
    /// A request comes in; `matched` is the route pattern that fits it.
    Arrived { method: String, matched: Option<String>, path: String, url: String },
    /// The service answers, with the text of the `content-length` header.
    Answered { status: u16, content_length: Option<String> },
    /// The body of the response was read; `None` where that failed.
    BodyRead(Option<Vec<u8>>),
}

/// What is done about an event.
#[derive(Debug)]
pub enum Action {
    /// The span is started, and the service gets the request.
    Serve { open: Option<OpenSpan> },
    /// The span is settled, the response is passed on as it is, and the
    /// submission is sent.
    PassOn { span: SpanAction, report: Option<Submission> },
    /// The span is settled, and the body of the response is read.
    ReadBody { span: SpanAction },
    /// The response is passed on with the body, and the submission is sent.
    Reply { body: Vec<u8>, submission: Submission },
    /// Nothing: the event does not fit the stage.
    Ignore,
}

impl RequestTrace {
    /// What was known of the request when it came in.
    pub open spec fn known(self) -> RequestFacts {
        RequestFacts { method: self.method@, route: self.route@, url: self.url@ }
    }
}

impl RequestFacts {
    /// The name of the request's span.
    pub open spec fn span_name(self) -> Seq<char> {
        self.method + " "@ + self.route
    }

    /// The attributes that the request's span starts with.
    pub open spec fn first_attributes(self) -> Seq<AttributeView> {
        seq![
            telemetry::text_attribute("http.method"@, self.method),
            telemetry::text_attribute("http.route"@, self.route),
            telemetry::text_attribute("http.url"@, self.url),
        ]
    }

    /// The span of the request, answered with the given status.
    pub open spec fn span(self, status: u16) -> SpanView {
        SpanView {
            name: self.span_name(),
            kind: SpanKind::Server,
            attributes: self.first_attributes() + last_attributes(status),
            status: span_status(status),
        }
    }
}

/// The response tells of an error.
pub open spec fn failed(status: u16) -> bool {
    status >= 400
}

/// The response tells of an error of the service.
pub open spec fn server_error(status: u16) -> bool {
    status >= 500
}

/// The attributes that a request's span gets from the response.
pub open spec fn last_attributes(status: u16) -> Seq<AttributeView> {
    seq![
        telemetry::integer_attribute("http.status_code"@, status as int),
        telemetry::flag_attribute("error"@, failed(status)),
    ]
}

/// How a request's span ends.
pub open spec fn span_status(status: u16) -> StatusView {
    if failed(status) {
        StatusView::Failed(client::status_text(status))
    } else {
        StatusView::Succeeded
    }
}

/// `action` is what becomes of the span of a request, where `keep_error` tells
/// whether a failed request is recorded that was not sampled.
pub open spec fn action_follows(
    request: RequestFacts,
    sampled: bool,
    keep_error: bool,
    status: u16,
    action: SpanAction,
) -> bool {
    match action {
        SpanAction::Finish { attributes, status: end } => {
            &&& sampled
            &&& telemetry::attributes_of(attributes@) == last_attributes(status)
            &&& end@ == span_status(status)
        },
        SpanAction::Record(span) => !sampled && server_error(status) && keep_error && span@
            == request.span(status),
        SpanAction::Skip => !sampled && !(server_error(status) && keep_error),
    }
}

/// How a response is submitted, given the text of its `content-length` header.
pub open spec fn planned_report(
    disabled: bool,
    status: u16,
    content_length: Option<Seq<char>>,
) -> ReportPlan {
    if !server_error(status) || disabled {
        ReportPlan::Leave
    } else {
        match content_length {
            None => ReportPlan::StatusOnly,
            Some(written) => match text::parsed_unsigned(written, u64::MAX as nat) {
                None => ReportPlan::StatusOnly,
                Some(length) => if length <= MAX_BUFFERED_RESPONSE {
                    ReportPlan::ReadBody
                } else {
                    ReportPlan::StatusOnly
                },
            },
        }
    }
}

/// The start of a body that is searched for a message.
pub open spec fn captured(body: Seq<u8>) -> Seq<u8> {
    if body.len() > BODY_CAPTURE_LIMIT {
        body.take(BODY_CAPTURE_LIMIT as int)
    } else {
        body
    }
}

/// The message of a response whose body was read; `None` stands for a body that
/// could not be read.
pub open spec fn read_message(body: Option<Seq<u8>>, status: u16) -> Seq<char> {
    match body {
        Some(bytes) => client::body_message(captured(bytes), status),
        None => client::status_text(status),
    }
}

/// The error that a failed request is submitted as.
pub open spec fn request_error(
    request: RequestFacts,
    message: Seq<char>,
) -> submission::AppError {
    submission::AppError {
        name: "http"@,
        message,
        file: "handler"@,
        line: 0,
        method: Some(request.method),
        url: Some(request.url),
        request_body: None,
    }
}

/// The route of a request: the pattern that the router matched, or else the path.
pub open spec fn routed(matched: Option<Seq<char>>, path: Seq<char>) -> Seq<char> {
    match matched {
        Some(pattern) => pattern,
        None => path,
    }
}

/// What is known of a request when it comes in.
pub open spec fn incoming(
    method: Seq<char>,
    matched: Option<Seq<char>>,
    path: Seq<char>,
    url: Seq<char>,
) -> RequestFacts {
    RequestFacts { method, route: routed(matched, path), url }
}

/// A request is taken in; `sampled` tells whether a span is started for it.
pub open spec fn taken_in(
    request: RequestFacts,
    sampled: bool,
    next: Stage,
    action: Action,
) -> bool {
    &&& next matches Stage::InFlight(r) && r.known() == request && r.sampled == sampled
    &&& action matches Action::Serve { open } && match open {
        Some(span) => {
            &&& sampled
            &&& span.name@ == request.span_name()
            &&& span.kind == SpanKind::Server
            &&& telemetry::attributes_of(span.attributes@) == request.first_attributes()
        },
        None => !sampled,
    }
}

/// `submission` submits a failed request with the given message, at some time.
pub open spec fn submits_request(
    client: MonitorView,
    request: RequestFacts,
    message: Seq<char>,
    submission: Submission,
) -> bool {
    exists|timestamp: Seq<char>|
        submission::utc_time(timestamp) && #[trigger] submission::submits(
            submission,
            client.client.config,
            request_error(request, message),
            timestamp,
        )
}

/// A response is taken in; `keep_error` tells whether a server error is recorded
/// on a request that was not sampled.
pub open spec fn answer_taken(
    client: MonitorView,
    request: RequestTrace,
    keep_error: bool,
    status: u16,
    content_length: Option<Seq<char>>,
    next: Stage,
    action: Action,
) -> bool {
    match planned_report(client.config.disable_http_error_reporting, status, content_length) {
        ReportPlan::Leave => {
            &&& next is Finished
            &&& action matches Action::PassOn { span, report } && report is None
                && action_follows(request.known(), request.sampled, keep_error, status, span)
        },
        ReportPlan::StatusOnly => {
            &&& next is Finished
            &&& action matches Action::PassOn { span, report } && action_follows(
                request.known(),
                request.sampled,
                keep_error,
                status,
                span,
            ) && (report matches Some(submission) && submits_request(
                client,
                request.known(),
                client::status_text(status),
                submission,
            ))
        },
        ReportPlan::ReadBody => {
            &&& next == Stage::Reading(request, status)
            &&& action matches Action::ReadBody { span } && action_follows(
                request.known(),
                request.sampled,
                keep_error,
                status,
                span,
            )
        },
    }
}

/// A body is taken in; `None` stands for one that could not be read.
pub open spec fn body_taken(
    client: MonitorView,
    request: RequestFacts,
    status: u16,
    body: Option<Seq<u8>>,
    next: Stage,
    action: Action,
) -> bool {
    &&& next is Finished
    &&& action matches Action::Reply { body: passed_on, submission } && passed_on@ == (match body {
        Some(bytes) => bytes,
        None => Seq::empty(),
    }) && submits_request(client, request, read_message(body, status), submission)
}

/// The next stage and the action are what an event leads to in a stage.
pub open spec fn step_follows(
    client: MonitorView,
    stage: Stage,
    event: Event,
    next: Stage,
    action: Action,
) -> bool {
    let traces = client.config.sampling.traces;
    match (stage, event) {
        (Stage::Waiting, Event::Arrived { method, matched, path, url }) => {
            let request = incoming(method@, text::opt_text(matched), path@, url@);
            &&& config::trace_rule(traces, request.route, false) matches Some(kept) ==> taken_in(
                request,
                kept,
                next,
                action,
            )
            &&& exists|draw: u64|
                taken_in(
                    request,
                    #[trigger] config::trace_kept(traces, request.route, false, draw),
                    next,
                    action,
                )
        },
        (Stage::InFlight(request), Event::Answered { status, content_length }) => {
            let length = text::opt_text(content_length);
            &&& config::trace_rule(traces, request.known().route, true) matches Some(kept)
                ==> answer_taken(client, request, kept, status, length, next, action)
            &&& exists|draw: u64|
                answer_taken(
                    client,
                    request,
                    #[trigger] config::trace_kept(traces, request.known().route, true, draw),
                    status,
                    length,
                    next,
                    action,
                )
        },
        (Stage::Reading(request, status), Event::BodyRead(body)) => body_taken(
            client,
            request.known(),
            status,
            match body {
                Some(bytes) => Some(bytes@),
                None => None,
            },
            next,
            action,
        ),
        _ => next == stage && action is Ignore,
    }
}

/// The route of a request: the pattern that the router matched, or else the path.
pub fn request_route<'a>(matched: Option<&'a str>, path: &'a str) -> (route: &'a str)
    ensures
        route@ == routed(text::opt_str(matched), path@),
{
    match matched {
        Some(pattern) => pattern,
        None => path,
    }
}

/// The attributes that a request's span starts with.
pub fn span_attributes(method: &str, route: &str, url: &str) -> (attributes: Vec<Attribute>)
    ensures
        telemetry::attributes_of(attributes@) == (RequestFacts {
            method: method@,
            route: route@,
            url: url@,
        }).first_attributes(),
{
    let mut attributes: Vec<Attribute> = Vec::new();
    telemetry::push_text(&mut attributes, "http.method", method);
    telemetry::push_text(&mut attributes, "http.route", route);
    telemetry::push_text(&mut attributes, "http.url", url);
    assert(telemetry::attributes_of(attributes@) =~= (RequestFacts {
        method: method@,
        route: route@,
        url: url@,
    }).first_attributes());
    attributes
}

/// Adds the attributes that a request's span gets from the response.
fn push_last_attributes(attributes: &mut Vec<Attribute>, status: u16)
    ensures
        telemetry::attributes_of(final(attributes)@) == telemetry::attributes_of(old(attributes)@)
            + last_attributes(status),
{
    telemetry::push_integer(attributes, "http.status_code", status as i64);
    telemetry::push_flag(attributes, "error", status >= 400);
    assert(telemetry::attributes_of(attributes@) =~= telemetry::attributes_of(old(attributes)@)
        + last_attributes(status));
}

/// How a request's span ends.
fn end_status(status: u16) -> (end: SpanStatus)
    ensures
        end@ == span_status(status),
{
    if status >= 400 {
        SpanStatus::Failed(http_status_text(status))
    } else {
        SpanStatus::Succeeded
    }
}

/// Takes in a request. Chance decides whether it is sampled where the rules do
/// not settle that.
pub fn request_started(
    cfg: &Config,
    method: &str,
    matched: Option<&str>,
    path: &str,
    url: &str,
) -> (request: RequestTrace)
    ensures
        request.known() == incoming(method@, text::opt_str(matched), path@, url@),
        config::trace_rule(cfg@.sampling.traces, request.known().route, false) matches Some(kept)
            ==> request.sampled == kept,
        exists|draw: u64| request.sampled == #[trigger] config::trace_kept(
            cfg@.sampling.traces,
            request.known().route,
            false,
            draw,
        ),
{
    let route: &str = request_route(matched, path);
    let sampled: bool = should_sample_trace(cfg, route, false);
    RequestTrace {
        method: method.to_string(),
        route: route.to_string(),
        url: url.to_string(),
        sampled,
    }
}

impl RequestTrace {
    /// The name of the request's span.
    pub fn span_name(&self) -> (name: String)
        ensures
            name@ == self.known().span_name(),
    {
        self.method.clone().concat(" ").concat(self.route.as_str())
    }

    /// The span that is started for the request.
    fn open_span(&self) -> (open: OpenSpan)
        ensures
            open.name@ == self.known().span_name(),
            open.kind == SpanKind::Server,
            telemetry::attributes_of(open.attributes@) == self.known().first_attributes(),
    {
        OpenSpan {
            name: self.span_name(),
            kind: SpanKind::Server,
            attributes: span_attributes(
                self.method.as_str(),
                self.route.as_str(),
                self.url.as_str(),
            ),
        }
    }

    /// The span of the request, answered with the given status.
    fn whole_span(&self, status: u16) -> (span: Span)
        ensures
            span@ == self.known().span(status),
    {
        let mut attributes: Vec<Attribute> = span_attributes(
            self.method.as_str(),
            self.route.as_str(),
            self.url.as_str(),
        );
        push_last_attributes(&mut attributes, status);
        Span {
            name: self.span_name(),
            kind: SpanKind::Server,
            attributes,
            status: end_status(status),
        }
    }

    /// What becomes of the request's span, where `keep_error` tells whether a
    /// server error is recorded on a request that was not sampled.
    pub fn answered(&self, keep_error: bool, status: u16) -> (action: SpanAction)
        ensures
            action_follows(self.known(), self.sampled, keep_error, status, action),
    {
        if self.sampled {
            let mut attributes: Vec<Attribute> = Vec::new();
            push_last_attributes(&mut attributes, status);
            assert(telemetry::attributes_of(attributes@) =~= last_attributes(status));
            SpanAction::Finish { attributes, status: end_status(status) }
        } else if status >= 500 && keep_error {
            SpanAction::Record(self.whole_span(status))
        } else {
            SpanAction::Skip
        }
    }

    /// What becomes of the request's span. Whether a server error is recorded
    /// on a request that was not sampled is up to the sampling rules for errors.
    pub fn response_received(&self, cfg: &Config, status: u16) -> (action: SpanAction)
        ensures
            config::trace_rule(cfg@.sampling.traces, self.known().route, true) matches Some(kept)
                ==> action_follows(self.known(), self.sampled, kept, status, action),
            exists|draw: u64|
                action_follows(
                    self.known(),
                    self.sampled,
                    #[trigger] config::trace_kept(cfg@.sampling.traces, self.known().route, true, draw),
                    status,
                    action,
                ),
    {
        let asked: bool = !self.sampled && status >= 500;
        let keep_error: bool = asked && should_sample_trace(cfg, self.route.as_str(), true);
        let action: SpanAction = self.answered(keep_error, status);
        proof {
            let traces = cfg@.sampling.traces;
            if asked {
                let draw = choose|draw: u64|
                    keep_error == #[trigger] config::trace_kept(traces, self.known().route, true, draw);
                assert(action_follows(
                    self.known(),
                    self.sampled,
                    config::trace_kept(traces, self.known().route, true, draw),
                    status,
                    action,
                ));
            } else {
                assert(action_follows(
                    self.known(),
                    self.sampled,
                    config::trace_kept(traces, self.known().route, true, 0),
                    status,
                    action,
                ));
            }
        }
        action
    }

    /// The request that submits the error of the service.
    pub fn submit(&self, client: &MiddleMonitorClient, status: u16, message: &str) -> (submission:
        Submission)
        ensures
            submits_request(client@, self.known(), message@, submission),
    {
        client.submit_application_error(
            "http",
            message,
            "handler",
            0,
            status,
            Some(self.method.as_str()),
            Some(self.url.as_str()),
            None,
        )
    }
}

/// How a response is submitted as an error. `content_length` is the text of the
/// header of that name.
pub fn report_plan(cfg: &Config, status: u16, content_length: Option<&str>) -> (plan: ReportPlan)
    ensures
        plan == planned_report(
            cfg@.disable_http_error_reporting,
            status,
            text::opt_str(content_length),
        ),
{
    if status < 500 || cfg.disable_http_error_reporting {
        return ReportPlan::Leave;
    }
    if let Some(written) = content_length {
        if let Some(length) = text::parse_unsigned(written, u64::MAX) {
            if length <= MAX_BUFFERED_RESPONSE {
                return ReportPlan::ReadBody;
            }
        }
    }
    ReportPlan::StatusOnly
}

/// The message of a response whose body was read, and the body that is passed
/// on. `None` stands for a body that could not be read: nothing of it is left.
pub fn body_read(status: u16, body: Option<Vec<u8>>) -> (read: (String, Vec<u8>))
    ensures
        match body {
            Some(bytes) => read.0@ == read_message(Some(bytes@), status) && read.1@ == bytes@,
            None => read.0@ == read_message(None, status) && read.1@.len() == 0,
        },
{
    match body {
        Some(bytes) => {
            let message: String = if bytes.len() > BODY_CAPTURE_LIMIT {
                let start: &[u8] = vstd::slice::slice_subrange(
                    bytes.as_slice(),
                    0,
                    BODY_CAPTURE_LIMIT,
                );
                assert(start@ =~= captured(bytes@));
                get_message_from_exception_body(start, status)
            } else {
                get_message_from_exception_body(bytes.as_slice(), status)
            };
            (message, bytes)
        },
        None => (http_status_text(status), Vec::new()),
    }
}

/// One step of an exchange between a service and its caller.
pub fn middleware(client: &MiddleMonitorClient, stage: Stage, event: Event) -> (step: (
    Stage,
    Action,
))
    ensures
        step_follows(client@, stage, event, step.0, step.1),
{
    match (stage, event) {
        (Stage::Waiting, Event::Arrived { method, matched, path, url }) => {
            let pattern: Option<&str> = match &matched {
                Some(m) => Some(m.as_str()),
                None => None,
            };
            let request: RequestTrace = request_started(
                client.config(),
                method.as_str(),
                pattern,
                path.as_str(),
                url.as_str(),
            );
            let open: Option<OpenSpan> = if request.sampled {
                Some(request.open_span())
            } else {
                None
            };
            let next = Stage::InFlight(request);
            let action = Action::Serve { open };
            proof {
                let traces = client@.config.sampling.traces;
                let draw = choose|draw: u64|
                    request.sampled == #[trigger] config::trace_kept(
                        traces,
                        request.known().route,
                        false,
                        draw,
                    );
                assert(taken_in(
                    request.known(),
                    config::trace_kept(traces, request.known().route, false, draw),
                    next,
                    action,
                ));
            }
            (next, action)
        },
        (Stage::InFlight(request), Event::Answered { status, content_length }) => {
            let span: SpanAction = request.response_received(client.config(), status);
            let length: Option<&str> = match &content_length {
                Some(l) => Some(l.as_str()),
                None => None,
            };
            let ghost taken = request;
            let (next, action): (Stage, Action) = match report_plan(
                client.config(),
                status,
                length,
            ) {
                ReportPlan::Leave => (Stage::Finished, Action::PassOn { span, report: None }),
                ReportPlan::StatusOnly => {
                    let message: String = http_status_text(status);
                    let submission: Submission = request.submit(client, status, message.as_str());
                    (Stage::Finished, Action::PassOn { span, report: Some(submission) })
                },
                ReportPlan::ReadBody => (
                    Stage::Reading(request, status),
                    Action::ReadBody { span },
                ),
            };
            proof {
                let traces = client@.config.sampling.traces;
                let draw = choose|draw: u64|
                    action_follows(
                        taken.known(),
                        taken.sampled,
                        #[trigger] config::trace_kept(traces, taken.known().route, true, draw),
                        status,
                        span,
                    );
                assert(answer_taken(
                    client@,
                    taken,
                    config::trace_kept(traces, taken.known().route, true, draw),
                    status,
                    text::opt_text(content_length),
                    next,
                    action,
                ));
            }
            (next, action)
        },
        (Stage::Reading(request, status), Event::BodyRead(body)) => {
            let (message, passed_on): (String, Vec<u8>) = body_read(status, body);
            let submission: Submission = request.submit(client, status, message.as_str());
            assert(body is None ==> passed_on@ =~= Seq::<u8>::empty());
            (Stage::Finished, Action::Reply { body: passed_on, submission })
        },
        (stage, _) => (stage, Action::Ignore),
    }
}

/// The span of a sampled request is the same, whether it is started with the
/// request and finished with the response, or recorded at once.
pub proof fn finished_span_is_whole(request: RequestFacts, status: u16, action: SpanAction)
    requires
        action_follows(request, true, true, status, action),
    ensures
        action matches SpanAction::Finish { attributes, status: end } && (SpanView {
            name: request.span_name(),
            kind: SpanKind::Server,
            attributes: request.first_attributes() + telemetry::attributes_of(attributes@),
            status: end@,
        }) == request.span(status),
{
}

/// A request ends as failed exactly from status 400 up, and its span says so in
/// its attributes too.
pub proof fn span_fails_from_400_up(request: RequestFacts, status: u16)
    ensures
        request.span(status).status is Failed <==> status >= 400,
        request.span(status).attributes.contains(
            telemetry::flag_attribute("error"@, status >= 400),
        ),
{
    let span = request.span(status);
    assert(span.attributes[4] == telemetry::flag_attribute("error"@, status >= 400));
}

/// Where errors are always sampled, every server error has a span: on every
/// route, and whether or not the request was sampled.
pub proof fn server_error_always_has_a_span(
    traces: TracesView,
    request: RequestFacts,
    sampled: bool,
    draw: u64,
    status: u16,
    action: SpanAction,
)
    requires
        traces.always_sample_errors,
        server_error(status),
        action_follows(
            request,
            sampled,
            config::trace_kept(traces, request.route, true, draw),
            status,
            action,
        ),
    ensures
        action !is Skip,
{
    config::errors_are_always_kept(traces, request.route, draw);
}

/// A request that was not sampled leaves no span unless the service failed.
pub proof fn only_server_errors_are_recorded_late(
    request: RequestFacts,
    keep_error: bool,
    status: u16,
    action: SpanAction,
)
    requires
        !server_error(status),
        action_follows(request, false, keep_error, status, action),
    ensures
        action is Skip,
{
}

/// A response is submitted exactly where the service failed and submitting is
/// not disabled, whatever its length.
pub proof fn server_errors_are_submitted(
    disabled: bool,
    status: u16,
    content_length: Option<Seq<char>>,
)
    ensures
        planned_report(disabled, status, content_length) is Leave <==> !(status >= 500
            && !disabled),
{
}

/// A server error is submitted once where that is not disabled: with its
/// response, or with the body that is read first. No other response is
/// submitted, and the body of none is read.
pub proof fn server_error_is_submitted_once(
    client: MonitorView,
    request: RequestTrace,
    status: u16,
    content_length: Option<String>,
    next: Stage,
    action: Action,
)
    requires
        step_follows(
            client,
            Stage::InFlight(request),
            Event::Answered { status, content_length },
            next,
            action,
        ),
    ensures
        ({
            let now = action matches Action::PassOn { span, report } && report is Some;
            let later = next is Reading;
            &&& !(now && later)
            &&& (now || later) == (status >= 500 && !client.config.disable_http_error_reporting)
            &&& later == (action is ReadBody)
            &&& !later ==> next is Finished
        }),
{
}

/// A body that was read is passed on as it was, and submitted with the request.
pub proof fn read_body_is_passed_on(
    client: MonitorView,
    request: RequestTrace,
    status: u16,
    body: Vec<u8>,
    next: Stage,
    action: Action,
)
    requires
        step_follows(
            client,
            Stage::Reading(request, status),
            Event::BodyRead(Some(body)),
            next,
            action,
        ),
    ensures
        next is Finished,
        action matches Action::Reply { body: passed_on, submission } && passed_on@ == body@,
{
}

/// Nothing happens any more once an exchange is finished.
pub proof fn finished_exchange_stays_finished(
    client: MonitorView,
    event: Event,
    next: Stage,
    action: Action,
)
    requires
        step_follows(client, Stage::Finished, event, next, action),
    ensures
        next is Finished,
        action is Ignore,
{
}

/// No body is read unless its length is announced and within the limit.
pub proof fn long_bodies_stay_unread(disabled: bool, status: u16, content_length: Option<Seq<char>>)
    requires
        planned_report(disabled, status, content_length) is ReadBody,
    ensures
        content_length matches Some(written) && text::parsed_unsigned(
            written,
            u64::MAX as nat,
        ) matches Some(length) && length <= MAX_BUFFERED_RESPONSE,
{
}

/// The attributes of a request's span have different keys.
pub proof fn span_keys_are_distinct(request: RequestFacts, status: u16)
    ensures
        telemetry::distinct_keys(request.span(status).attributes),
{
    reveal_strlit("http.method");
    reveal_strlit("http.route");
    reveal_strlit("http.url");
    reveal_strlit("http.status_code");
    reveal_strlit("error");
    assert("http.method"@[5] == 'm');
    assert("http.route"@[5] == 'r');
    assert("http.url"@[5] == 'u');
    assert("http.status_code"@[5] == 's');
    assert("http.method"@.len() == 11);
    assert("http.route"@.len() == 10);
    assert("http.url"@.len() == 8);
    assert("http.status_code"@.len() == 16);
    assert("error"@.len() == 5);
}

} // verus!
