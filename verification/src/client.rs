//! The client that turns errors and log messages into telemetry. It decides
//! what is sent; an exporter sends it.

use vstd::prelude::*;
use vstd::string::*;

use crate::config;
use crate::config::{should_sample_log, should_sample_trace, Config, ConfigView};
use crate::error::Error;
use crate::json;
use crate::level::LogLevel;
use crate::submission;
use crate::submission::Submission;
use crate::telemetry;
use crate::telemetry::{
    Attribute, AttributeView, HttpView, LogEntry, LogEntryView, Severity, Span, SpanKind,
    SpanStatus, SpanView, StatusView,
};
use crate::text;

pub use crate::telemetry::HttpContext;

verus! {

/// The name under which spans and log entries are recorded.
pub const INSTRUMENTATION: &'static str = "middle-monitor-sdk";

/// The text for a response with the given status.
pub open spec fn status_text(status: u16) -> Seq<char> {
    "HTTP "@ + text::decimal(status as nat)
}

/// The text under `error`, where the bytes are a JSON object that has a text there.
pub open spec fn error_field(body: Seq<u8>) -> Option<Seq<char>> {
    match json::json_read(body) {
        Some(value) => json::text_member(value, "error"@),
        None => None,
    }
}

/// The message of a failed response: what its body says, or else its status.
pub open spec fn exception_message(said: Option<Seq<char>>, status: u16) -> Seq<char> {
    match said {
        Some(t) => if t.len() > 0 {
            t
        } else {
            status_text(status)
        },
        None => status_text(status),
    }
}

/// The message of a failed response with the given body.
pub open spec fn body_message(body: Seq<u8>, status: u16) -> Seq<char> {
    if body.len() == 0 {
        status_text(status)
    } else {
        exception_message(error_field(body), status)
    }
}

/// The text for a response with the given status.
pub fn http_status_text(status: u16) -> (message: String)
    ensures
        message@ == status_text(status),
{
    "HTTP ".to_string().concat(text::decimal_text(status as u64).as_str())
}

/// The message of a failed response, given what its body says.
pub fn message_or_status(said: Option<String>, status_code: u16) -> (message: String)
    ensures
        message@ == exception_message(text::opt_text(said), status_code),
{
    if let Some(t) = said {
        if !t.as_str().is_empty() {
            return t;
        }
    }
    http_status_text(status_code)
}

/// The message of a failed response: the text under `error` in its JSON body,
/// or else its status.
pub fn get_message_from_exception_body(body: &[u8], status_code: u16) -> (message: String)
    ensures
        message@ == body_message(body@, status_code),
{
    if body.len() == 0 {
        return http_status_text(status_code);
    }
    let said: Option<String> = json::read_text_member(body, "error");
    message_or_status(said, status_code)
}

/// What a client holds.
pub struct ClientView {
    pub config: ConfigView,
    pub tracer: bool,
    pub provider: bool,
    pub logger_provider: bool,
    pub initialized: bool,
}

/// A client, with the parts of its export pipeline that stand.
#[derive(Debug)]
pub struct OTelClient {
    config: Config,
    tracer: bool,
    provider: bool,
    logger_provider: bool,
    initialized: bool,
}

/// What came of building an export pipeline.
#[derive(Debug)]
pub enum PipelineOutcome {
    /// Tracer and logger stand.
    Ready,
    /// The span exporter was not built, for the reason given.
    TracerFailed(String),
    /// The tracer stands, but the logger was not installed, for the reason given.
    LoggerFailed(String),
}

/// What an export pipeline is built from.
#[derive(Debug)]
pub struct PipelinePlan {
    pub service: String,
    pub traces_url: String,
    pub logs_url: String,
    pub headers: Vec<(String, String)>,
}

/// Which parts of an export pipeline are to be shut down.
#[derive(Debug, Clone, Copy, PartialEq, Eq, Structural)]
pub struct ShutdownPlan {
    pub tracer_provider: bool,
    pub logger_provider: bool,
}

/// An error as it is reported: a span, and a log entry where logs are kept.
#[derive(Debug)]
pub struct ErrorReport {
    pub span: Span,
    pub log: Option<LogEntry>,
}

/// What a `PipelinePlan` holds.
pub struct PlanView {
    pub service: Seq<char>,
    pub traces_url: Seq<char>,
    pub logs_url: Seq<char>,
    pub headers: Seq<(Seq<char>, Seq<char>)>,
}

/// What an `ErrorReport` holds.
pub struct ReportView {
    pub span: SpanView,
    pub log: Option<LogEntryView>,
}

impl View for OTelClient {
    type V = ClientView;

    closed spec fn view(&self) -> ClientView {
        ClientView {
            config: self.config@,
            tracer: self.tracer,
            provider: self.provider,
            logger_provider: self.logger_provider,
            initialized: self.initialized,
        }
    }
}

impl View for PipelinePlan {
    type V = PlanView;

    open spec fn view(&self) -> PlanView {
        PlanView {
            service: self.service@,
            traces_url: self.traces_url@,
            logs_url: self.logs_url@,
            headers: telemetry::pairs_of(self.headers@),
        }
    }
}

impl View for ErrorReport {
    type V = ReportView;

    open spec fn view(&self) -> ReportView {
        ReportView {
            span: self.span@,
            log: match self.log {
                Some(entry) => Some(entry@),
                None => None,
            },
        }
    }
}

/// A client that was just made.
pub open spec fn new_client(config: ConfigView) -> ClientView {
    ClientView {
        config,
        tracer: false,
        provider: false,
        logger_provider: false,
        initialized: false,
    }
}

/// A client that is initialized has every part of its pipeline.
pub open spec fn complete(client: ClientView) -> bool {
    client.initialized ==> client.tracer && client.provider && client.logger_provider
}

/// The client after its pipeline was built with the given outcome.
pub open spec fn after_init(client: ClientView, outcome: PipelineOutcome) -> ClientView {
    if client.initialized {
        client
    } else {
        match outcome {
            PipelineOutcome::TracerFailed(_) => client,
            PipelineOutcome::LoggerFailed(_) => ClientView {
                tracer: true,
                provider: true,
                ..client
            },
            PipelineOutcome::Ready => ClientView {
                tracer: true,
                provider: true,
                logger_provider: true,
                initialized: true,
                ..client
            },
        }
    }
}

/// The client after it was shut down.
pub open spec fn after_shutdown(client: ClientView) -> ClientView {
    ClientView { provider: false, logger_provider: false, initialized: false, ..client }
}

/// The address that is exported to. Where the endpoint ends in the path of a
/// signal, every copy of that path is taken out of it.
pub open spec fn export_base(endpoint: Seq<char>) -> Seq<char> {
    if "/v1/traces"@.is_suffix_of(endpoint) {
        text::without(endpoint, "/v1/traces"@)
    } else if "/v1/logs"@.is_suffix_of(endpoint) {
        text::without(endpoint, "/v1/logs"@)
    } else {
        endpoint
    }
}

/// The headers that carry a token.
pub open spec fn token_headers(token: Option<Seq<char>>) -> Seq<(Seq<char>, Seq<char>)> {
    match token {
        Some(t) => seq![("Authorization"@, "Bearer "@ + t)],
        None => seq![],
    }
}

/// What the pipeline for a configuration is built from.
pub open spec fn pipeline_for(config: ConfigView) -> PlanView {
    PlanView {
        service: config.service,
        traces_url: export_base(config.endpoint) + "/v1/traces"@,
        logs_url: export_base(config.endpoint) + "/v1/logs"@,
        headers: token_headers(config.token),
    }
}

/// The log entry for a message of a service.
pub open spec fn log_entry(
    service: Seq<char>,
    level: LogLevel,
    message: Seq<char>,
    attrs: Seq<(Seq<char>, Seq<char>)>,
) -> LogEntryView {
    LogEntryView {
        severity: telemetry::severity_of(level),
        severity_text: level.name(),
        body: message,
        attributes: seq![telemetry::text_attribute("service.name"@, service)]
            + telemetry::text_attributes(attrs),
    }
}

/// `entry` is what a client makes of a message.
pub open spec fn log_made(
    client: ClientView,
    level: LogLevel,
    message: Seq<char>,
    pairs: Seq<(Seq<char>, Seq<char>)>,
    entry: Result<LogEntry, Error>,
) -> bool {
    match entry {
        Ok(e) => client.initialized && e@ == log_entry(
            client.config.service,
            level,
            message,
            pairs,
        ),
        Err(e) => !client.initialized && e is NotInitialized,
    }
}

/// `plan` is what the pipeline of a client has to be built from, or nothing
/// where it stands already.
pub open spec fn plan_follows(client: ClientView, plan: Option<PipelinePlan>) -> bool {
    match plan {
        Some(p) => !client.initialized && p@ == pipeline_for(client.config),
        None => client.initialized,
    }
}

/// `result` is what a client answers about its pipeline, which was built with the
/// given outcome and left the client as given.
pub open spec fn init_answers(
    after: ClientView,
    outcome: PipelineOutcome,
    result: Result<(), String>,
) -> bool {
    match result {
        Ok(_) => after.initialized,
        Err(reason) => {
            &&& !after.initialized
            &&& match outcome {
                PipelineOutcome::TracerFailed(r) => reason@ == r@,
                PipelineOutcome::LoggerFailed(r) => reason@ == r@,
                PipelineOutcome::Ready => false,
            }
        },
    }
}

/// `plan` names the parts of a client's pipeline that stand.
pub open spec fn shutdown_follows(client: ClientView, plan: ShutdownPlan) -> bool {
    plan.tracer_provider == client.provider && plan.logger_provider == client.logger_provider
}

/// The pairs that a caller gave along, or none.
pub open spec fn given_pairs(attrs: Option<&Vec<(String, String)>>) -> Seq<(Seq<char>, Seq<char>)> {
    match attrs {
        Some(pairs) => telemetry::pairs_of(pairs@),
        None => seq![],
    }
}

/// What is known of an error.
pub struct Failure {
    pub message: Seq<char>,
    pub error_type: Seq<char>,
    pub file: Option<Seq<char>>,
    pub line: Option<u32>,
    pub http: Option<HttpView>,
}

impl Failure {
    /// The route on which the error came up; empty where it is not known.
    pub open spec fn route(self) -> Seq<char> {
        match self.http {
            Some(http) => match http.url {
                Some(url) => url,
                None => Seq::empty(),
            },
            None => Seq::empty(),
        }
    }

    /// The status of the response; 0 where it is not known.
    pub open spec fn status(self) -> u16 {
        match self.http {
            Some(http) => match http.status_code {
                Some(status) => status,
                None => 0,
            },
            None => 0,
        }
    }

    /// The file in which the error came up.
    pub open spec fn file_text(self) -> Seq<char> {
        match self.file {
            Some(file) => file,
            None => "unknown"@,
        }
    }

    /// The line in which the error came up.
    pub open spec fn line_number(self) -> u32 {
        match self.line {
            Some(line) => line,
            None => 0,
        }
    }

    /// What the request tells, as attributes of a span.
    pub open spec fn http_attributes(self) -> Seq<AttributeView> {
        match self.http {
            None => seq![],
            Some(http) => {
                (match http.method {
                    Some(method) => seq![telemetry::text_attribute("http.method"@, method)],
                    None => seq![],
                }) + (match http.url {
                    Some(url) => seq![telemetry::text_attribute("http.url"@, url)],
                    None => seq![],
                }) + (match http.status_code {
                    Some(status) => seq![
                        telemetry::integer_attribute("http.status_code"@, status as int),
                    ],
                    None => seq![],
                })
            },
        }
    }

    /// What the request tells, as texts of a log entry.
    pub open spec fn http_pairs(self) -> Seq<(Seq<char>, Seq<char>)> {
        match self.http {
            None => seq![],
            Some(http) => {
                (match http.method {
                    Some(method) => seq![("http.method"@, method)],
                    None => seq![],
                }) + (match http.url {
                    Some(url) => seq![("http.url"@, url)],
                    None => seq![],
                }) + (match http.status_code {
                    Some(status) => seq![("http.status_code"@, text::decimal(status as nat))],
                    None => seq![],
                })
            },
        }
    }

    /// The span that reports the error for a service.
    pub open spec fn span(self, service: Seq<char>) -> SpanView {
        SpanView {
            name: "error.report"@,
            kind: SpanKind::Internal,
            attributes: seq![
                telemetry::text_attribute("error.message"@, self.message),
                telemetry::text_attribute("error.type"@, self.error_type),
                telemetry::text_attribute("error.file"@, self.file_text()),
                telemetry::integer_attribute("error.line"@, self.line_number() as int),
                telemetry::text_attribute("service.name"@, service),
            ] + self.http_attributes(),
            status: StatusView::Failed(self.message),
        }
    }

    /// The texts of the log entry that reports the error.
    pub open spec fn log_pairs(self) -> Seq<(Seq<char>, Seq<char>)> {
        seq![
            ("error.type"@, self.error_type),
            ("error.file"@, self.file_text()),
            ("error.line"@, text::decimal(self.line_number() as nat)),
        ] + self.http_pairs()
    }

    /// The report of the error under a configuration.
    pub open spec fn report(self, config: ConfigView) -> ReportView {
        ReportView {
            span: self.span(config.service),
            log: if config::log_kept(
                config.sampling.logs,
                self.route(),
                LogLevel::Error,
                self.status(),
                true,
            ) {
                Some(log_entry(config.service, LogLevel::Error, self.message, self.log_pairs()))
            } else {
                None
            },
        }
    }
}

/// What `report_error` was called with.
pub open spec fn failure(
    message: &str,
    error_type: &str,
    file: Option<&str>,
    line: Option<u32>,
    http_context: Option<&HttpContext>,
) -> Failure {
    Failure {
        message: message@,
        error_type: error_type@,
        file: text::opt_str(file),
        line,
        http: telemetry::opt_http(http_context),
    }
}

/// `result` is what a client makes of an error, where `sampled` tells whether
/// its trace is kept.
pub open spec fn report_made(
    client: ClientView,
    sampled: bool,
    failure: Failure,
    result: Result<Option<ErrorReport>, Error>,
) -> bool {
    match result {
        Err(e) => !client.initialized && e is NotInitialized,
        Ok(None) => client.initialized && !sampled,
        Ok(Some(report)) => client.initialized && sampled && report@ == failure.report(
            client.config,
        ),
    }
}

/// `result` is what a client makes of an error: as the sampling rules settle
/// it, and by some random word where they do not.
pub open spec fn report_follows(
    client: ClientView,
    failure: Failure,
    result: Result<Option<ErrorReport>, Error>,
) -> bool {
    let traces = client.config.sampling.traces;
    &&& config::trace_rule(traces, failure.route(), true) matches Some(kept) ==> report_made(
        client,
        kept,
        failure,
        result,
    )
    &&& exists|draw: u64|
        report_made(
            client,
            #[trigger] config::trace_kept(traces, failure.route(), true, draw),
            failure,
            result,
        )
}

impl OTelClient {
    #[verifier::type_invariant]
    spec fn whole(self) -> bool {
        self.initialized ==> self.tracer && self.provider && self.logger_provider
    }

    /// A client for a configuration, without a pipeline.
    pub fn new(config: Config) -> (client: Self)
        ensures
            client@ == new_client(config@),
    {
        OTelClient {
            config,
            tracer: false,
            provider: false,
            logger_provider: false,
            initialized: false,
        }
    }

    /// The configuration of the client.
    pub fn config(&self) -> (config: &Config)
        ensures
            config@ == self@.config,
    {
        &self.config
    }

    /// Whether the pipeline stands.
    pub fn is_initialized(&self) -> (yes: bool)
        ensures
            yes == self@.initialized,
            complete(self@),
    {
        proof {
            use_type_invariant(self);
        }
        self.initialized
    }

    /// Whether the client has a tracer.
    pub fn has_tracer(&self) -> (yes: bool)
        ensures
            yes == self@.tracer,
    {
        self.tracer
    }

    /// What the pipeline has to be built from; `None` where it stands already.
    pub fn pipeline_plan(&self) -> (plan: Option<PipelinePlan>)
        ensures
            plan_follows(self@, plan),
    {
        if self.initialized {
            return None;
        }
        let endpoint: &str = self.config.endpoint.as_str();
        let base: String = if text::ends_with(endpoint, "/v1/traces") {
            text::remove_all(endpoint, "/v1/traces")
        } else if text::ends_with(endpoint, "/v1/logs") {
            text::remove_all(endpoint, "/v1/logs")
        } else {
            endpoint.to_string()
        };
        let mut headers: Vec<(String, String)> = Vec::new();
        if let Some(token) = &self.config.token {
            headers.push(
                ("Authorization".to_string(), "Bearer ".to_string().concat(token.as_str())),
            );
        }
        assert(telemetry::pairs_of(headers@) =~= token_headers(self@.config.token));
        Some(
            PipelinePlan {
                service: self.config.service.clone(),
                traces_url: base.clone().concat("/v1/traces"),
                logs_url: base.concat("/v1/logs"),
                headers,
            },
        )
    }

    /// Takes in what came of building the pipeline. On a client whose pipeline
    /// stands this does nothing.
    pub fn init(&mut self, outcome: PipelineOutcome) -> (result: Result<(), String>)
        ensures
            final(self)@ == after_init(old(self)@, outcome),
            complete(final(self)@),
            init_answers(final(self)@, outcome, result),
    {
        proof {
            use_type_invariant(&*self);
        }
        if self.initialized {
            return Ok(());
        }
        match outcome {
            PipelineOutcome::TracerFailed(reason) => Err(reason),
            PipelineOutcome::LoggerFailed(reason) => {
                self.tracer = true;
                self.provider = true;
                Err(reason)
            },
            PipelineOutcome::Ready => {
                self.tracer = true;
                self.provider = true;
                self.logger_provider = true;
                self.initialized = true;
                Ok(())
            },
        }
    }

    /// The severity that a level is sent with.
    pub fn log_level_to_severity(level: &LogLevel) -> (severity: Severity)
        ensures
            severity == telemetry::severity_of(*level),
    {
        match level {
            LogLevel::Debug => Severity::Debug,
            LogLevel::Info => Severity::Info,
            LogLevel::Warn => Severity::Warn,
            LogLevel::Error => Severity::Error,
            LogLevel::Fatal => Severity::Fatal,
            LogLevel::Panic => Severity::Fatal,
        }
    }

    /// The log entry for a message, which comes with the pairs in `attrs`.
    pub fn log(
        &self,
        level: &LogLevel,
        message: &str,
        attrs: Option<&Vec<(String, String)>>,
    ) -> (entry: Result<LogEntry, Error>)
        ensures
            log_made(self@, *level, message@, given_pairs(attrs), entry),
    {
        proof {
            use_type_invariant(self);
        }
        if !self.initialized || !self.logger_provider {
            return Err(Error::NotInitialized);
        }
        let mut attributes: Vec<Attribute> = Vec::new();
        telemetry::push_text(&mut attributes, "service.name", self.config.service.as_str());
        let ghost head = telemetry::attributes_of(attributes@);
        assert(head =~= seq![telemetry::text_attribute("service.name"@, self@.config.service)]);
        let ghost tail = telemetry::text_attributes(given_pairs(attrs));
        if let Some(pairs) = attrs {
            let mut i: usize = 0;
            assert(tail.take(0) =~= Seq::<AttributeView>::empty());
            while i < pairs.len()
                invariant
                    i <= pairs.len(),
                    tail == telemetry::text_attributes(telemetry::pairs_of(pairs@)),
                    telemetry::attributes_of(attributes@) =~= head + tail.take(i as int),
                decreases pairs.len() - i,
            {
                telemetry::push_text(&mut attributes, pairs[i].0.as_str(), pairs[i].1.as_str());
                assert(tail.take(i + 1) =~= tail.take(i as int).push(tail[i as int]));
                i = i + 1;
            }
            assert(tail.take(i as int) =~= tail);
        } else {
            assert(tail =~= Seq::<AttributeView>::empty());
        }
        assert(telemetry::attributes_of(attributes@) =~= head + tail);
        Ok(
            LogEntry {
                severity: OTelClient::log_level_to_severity(level),
                severity_text: level.as_str().to_string(),
                body: message.to_string(),
                attributes,
            },
        )
    }

    /// Whether there are log entries to be flushed.
    pub fn flush_logs(&self) -> (flush: bool)
        ensures
            flush == self@.logger_provider,
    {
        self.logger_provider
    }

    /// Shuts the client down, and tells which parts of its pipeline have to be
    /// shut down.
    pub fn shutdown(&mut self) -> (plan: ShutdownPlan)
        ensures
            final(self)@ == after_shutdown(old(self)@),
            shutdown_follows(old(self)@, plan),
    {
        let plan = ShutdownPlan {
            tracer_provider: self.provider,
            logger_provider: self.logger_provider,
        };
        self.initialized = false;
        self.provider = false;
        self.logger_provider = false;
        plan
    }
}

impl OTelClient {
    /// The report of an error, where `sampled` tells whether its trace is kept.
    pub fn report_sampled_error(
        &self,
        sampled: bool,
        message: &str,
        error_type: &str,
        file: Option<&str>,
        line: Option<u32>,
        http_context: Option<&HttpContext>,
    ) -> (result: Result<Option<ErrorReport>, Error>)
        ensures
            report_made(
                self@,
                sampled,
                failure(message, error_type, file, line, http_context),
                result,
            ),
    {
        proof {
            use_type_invariant(self);
        }
        if !self.initialized {
            return Err(Error::NotInitialized);
        }
        if !self.tracer {
            return Err(Error::TracerUnavailable);
        }
        if !sampled {
            return Ok(None);
        }
        let ghost f = failure(message, error_type, file, line, http_context);
        let file_text: &str = match file {
            Some(name) => name,
            None => "unknown",
        };
        let line_number: u32 = match line {
            Some(number) => number,
            None => 0,
        };
        let mut attributes: Vec<Attribute> = Vec::new();
        telemetry::push_text(&mut attributes, "error.message", message);
        telemetry::push_text(&mut attributes, "error.type", error_type);
        telemetry::push_text(&mut attributes, "error.file", file_text);
        telemetry::push_integer(&mut attributes, "error.line", line_number as i64);
        telemetry::push_text(&mut attributes, "service.name", self.config.service.as_str());
        let mut pairs: Vec<(String, String)> = Vec::new();
        pairs.push(("error.type".to_string(), error_type.to_string()));
        pairs.push(("error.file".to_string(), file_text.to_string()));
        pairs.push(("error.line".to_string(), text::decimal_text(line_number as u64)));
        if let Some(context) = http_context {
            if let Some(method) = &context.method {
                telemetry::push_text(&mut attributes, "http.method", method.as_str());
                pairs.push(("http.method".to_string(), method.clone()));
            }
            if let Some(url) = &context.url {
                telemetry::push_text(&mut attributes, "http.url", url.as_str());
                pairs.push(("http.url".to_string(), url.clone()));
            }
            if let Some(status) = context.status_code {
                telemetry::push_integer(&mut attributes, "http.status_code", status as i64);
                pairs.push(("http.status_code".to_string(), text::decimal_text(status as u64)));
            }
        }
        assert(telemetry::attributes_of(attributes@) =~= f.span(self@.config.service).attributes);
        assert(telemetry::pairs_of(pairs@) =~= f.log_pairs());
        let span = Span {
            name: "error.report".to_string(),
            kind: SpanKind::Internal,
            attributes,
            status: SpanStatus::Failed(message.to_string()),
        };
        let keep_log: bool = should_sample_log(
            &self.config,
            route_of(http_context),
            &LogLevel::Error,
            status_of(http_context),
            true,
        );
        let log: Option<LogEntry> = if keep_log {
            match self.log(&LogLevel::Error, message, Some(&pairs)) {
                Ok(entry) => Some(entry),
                Err(_) => None,
            }
        } else {
            None
        };
        Ok(Some(ErrorReport { span, log }))
    }

    /// The report of an error, or nothing where its trace is not kept. Chance
    /// decides on traces that the sampling rules do not settle.
    pub fn report_error(
        &self,
        message: &str,
        error_type: &str,
        file: Option<&str>,
        line: Option<u32>,
        http_context: Option<&HttpContext>,
    ) -> (result: Result<Option<ErrorReport>, Error>)
        ensures
            report_follows(
                self@,
                failure(message, error_type, file, line, http_context),
                result,
            ),
    {
        let sampled: bool = self.initialized && should_sample_trace(
            &self.config,
            route_of(http_context),
            true,
        );
        let result = self.report_sampled_error(
            sampled,
            message,
            error_type,
            file,
            line,
            http_context,
        );
        proof {
            let f = failure(message, error_type, file, line, http_context);
            let traces = self@.config.sampling.traces;
            if self@.initialized {
                let draw = choose|draw: u64|
                    sampled == #[trigger] config::trace_kept(traces, f.route(), true, draw);
                assert(report_made(
                    self@,
                    config::trace_kept(traces, f.route(), true, draw),
                    f,
                    result,
                ));
            } else {
                assert(report_made(
                    self@,
                    config::trace_kept(traces, f.route(), true, 0),
                    f,
                    result,
                ));
            }
        }
        result
    }

    /// The request that submits an error of an application, with the time of
    /// the call. The status of the response is not part of it.
    pub fn submit_application_error(
        &self,
        name: &str,
        message: &str,
        file: &str,
        line: i32,
        _status_code: u16,
        method: Option<&str>,
        url: Option<&str>,
        request_body: Option<&str>,
    ) -> (submission: Submission)
        ensures
            exists|timestamp: Seq<char>|
                submission::utc_time(timestamp) && #[trigger] submission::submits(
                    submission,
                    self@.config,
                    submission::app_error(name, message, file, line, method, url, request_body),
                    timestamp,
                ),
    {
        let timestamp: String = submission::current_time();
        submission::application_error_at(
            &self.config,
            name,
            message,
            file,
            line,
            method,
            url,
            request_body,
            timestamp.as_str(),
        )
    }
}

/// The route in a context; empty where it is not known.
fn route_of<'a>(http_context: Option<&'a HttpContext>) -> (route: &'a str)
    ensures
        forall|f: Failure|
            f.http == telemetry::opt_http(http_context) ==> route@ == #[trigger] f.route(),
{
    if let Some(context) = http_context {
        if let Some(url) = &context.url {
            return url.as_str();
        }
    }
    proof {
        reveal_strlit("");
        assert(""@ =~= Seq::<char>::empty());
    }
    ""
}

/// The status in a context; 0 where it is not known.
fn status_of(http_context: Option<&HttpContext>) -> (status: u16)
    ensures
        forall|f: Failure|
            f.http == telemetry::opt_http(http_context) ==> status == #[trigger] f.status(),
{
    if let Some(context) = http_context {
        if let Some(status) = context.status_code {
            return status;
        }
    }
    0
}

/// A new client is complete, and building its pipeline or shutting it down
/// keeps every client complete.
pub proof fn every_client_is_complete(
    config: ConfigView,
    client: ClientView,
    outcome: PipelineOutcome,
)
    requires
        complete(client),
    ensures
        complete(new_client(config)),
        complete(after_init(client, outcome)),
        complete(after_shutdown(client)),
{
}

/// Once the pipeline stands, building it again changes nothing.
pub proof fn init_happens_once(
    client: ClientView,
    outcome: PipelineOutcome,
    again: PipelineOutcome,
)
    requires
        after_init(client, outcome).initialized,
    ensures
        after_init(after_init(client, outcome), again) == after_init(client, outcome),
{
}

/// Shutting down takes the pipeline away, once and for all; building it again
/// brings it back, under the same configuration.
pub proof fn shutdown_and_init_alternate(client: ClientView)
    ensures
        !after_shutdown(client).initialized,
        after_shutdown(after_shutdown(client)) == after_shutdown(client),
        after_init(after_shutdown(client), PipelineOutcome::Ready).initialized,
        after_init(after_shutdown(client), PipelineOutcome::Ready).config == client.config,
{
}

/// A failed attempt leaves a client that is not initialized as it was, but for
/// a tracer that was built.
pub proof fn failed_init_can_be_repeated(client: ClientView, outcome: PipelineOutcome)
    requires
        !client.initialized,
        outcome !is Ready,
    ensures
        !after_init(client, outcome).initialized,
        after_init(after_init(client, outcome), PipelineOutcome::Ready) == after_init(
            client,
            PipelineOutcome::Ready,
        ),
{
}

/// A client without its pipeline, such as a new one or one that was shut down,
/// answers every error with the same refusal.
pub proof fn client_without_pipeline_refuses(
    client: ClientView,
    failure: Failure,
    result: Result<Option<ErrorReport>, Error>,
)
    requires
        !client.initialized,
        report_follows(client, failure, result),
    ensures
        result matches Err(e) && e is NotInitialized,
{
}

/// A client with its pipeline refuses no error, and where errors are always
/// sampled it reports each of them.
pub proof fn client_with_pipeline_reports(
    client: ClientView,
    failure: Failure,
    result: Result<Option<ErrorReport>, Error>,
)
    requires
        client.initialized,
        report_follows(client, failure, result),
    ensures
        result is Ok,
        client.config.sampling.traces.always_sample_errors ==> (result matches Ok(Some(report))
            && report@ == failure.report(client.config)),
{
}

/// Under the sampling rules that no choice was made about, the report of an
/// error has a log entry on every route but those of probes, and there from
/// status 500 up.
pub proof fn default_rules_log_errors(config: ConfigView, failure: Failure)
    requires
        config.sampling == config::default_sampling(),
    ensures
        failure.report(config).log is Some <==> !crate::glob::glob_any(
            failure.route(),
            config::probe_routes(),
        ) || failure.status() >= 500,
{
}

/// The message of a failed response is never empty.
pub proof fn exception_message_is_not_empty(body: Seq<u8>, status: u16)
    ensures
        body_message(body, status).len() > 0,
{
    reveal_strlit("HTTP ");
}

/// An endpoint that ends in the path of a signal leads to the same addresses as
/// the endpoint without it, which holds no copy of that path and ends in none.
pub proof fn signal_path_in_the_endpoint_does_not_matter(base: Seq<char>, config: ConfigView)
    requires
        !"/v1/traces"@.is_suffix_of(base),
        !"/v1/logs"@.is_suffix_of(base),
    ensures
        export_base(base) == base,
        !text::occurs_in(base, "/v1/traces"@) ==> pipeline_for(
            ConfigView { endpoint: base + "/v1/traces"@, ..config },
        ) == pipeline_for(ConfigView { endpoint: base, ..config }),
        !text::occurs_in(base, "/v1/logs"@) ==> pipeline_for(
            ConfigView { endpoint: base + "/v1/logs"@, ..config },
        ) == pipeline_for(ConfigView { endpoint: base, ..config }),
{
    let traces = "/v1/traces"@;
    let logs = "/v1/logs"@;
    reveal_strlit("/v1/traces");
    reveal_strlit("/v1/logs");
    assert(traces =~= (base + traces).subrange(
        base.len() as int,
        (base + traces).len() as int,
    ));
    assert(logs =~= (base + logs).subrange(base.len() as int, (base + logs).len() as int));
    assert(!traces.is_suffix_of(base + logs)) by {
        assert((base + logs).last() == 's');
        if traces.is_suffix_of(base + logs) {
            let end = (base + logs).len();
            assert((base + logs)[end - 2] == 'g');
            assert((base + logs).subrange(end - 10, end as int)[8] == 'g');
            assert(traces[8] == 'e');
        }
    }
    if !text::occurs_in(base, traces) {
        assert forall|j: int| 0 <= j < base.len() implies !text::occurs_at(
            base + traces,
            traces,
            j,
        ) by {
            lemma_mark_does_not_overlap_itself(base, traces, j);
        }
        text::removal_of_a_single_copy(base, traces);
    }
    if !text::occurs_in(base, logs) {
        assert forall|j: int| 0 <= j < base.len() implies !text::occurs_at(
            base + logs,
            logs,
            j,
        ) by {
            lemma_mark_does_not_overlap_itself(base, logs, j);
        }
        text::removal_of_a_single_copy(base, logs);
    }
}

proof fn lemma_mark_does_not_overlap_itself(base: Seq<char>, mark: Seq<char>, j: int)
    requires
        mark == "/v1/traces"@ || mark == "/v1/logs"@,
        !text::occurs_in(base, mark),
        0 <= j < base.len(),
    ensures
        !text::occurs_at(base + mark, mark, j),
{
    reveal_strlit("/v1/traces");
    reveal_strlit("/v1/logs");
    let whole = base + mark;
    if text::occurs_at(whole, mark, j) {
        let here = whole.subrange(j, j + mark.len());
        let d = base.len() - j;
        if d >= mark.len() {
            assert(base.subrange(j, j + mark.len()) =~= here);
            assert(text::occurs_at(base, mark, j));
        } else {
            assert(here[d] == mark[0]);
            assert(mark[d] == '/');
            assert(d == 3);
            assert(here[4] == mark[1]);
        }
    }
}

/// The attributes of a report have different keys, on its span as in its log entry.
pub proof fn report_keys_are_distinct(f: Failure, service: Seq<char>)
    ensures
        telemetry::distinct_keys(f.span(service).attributes),
        telemetry::distinct_keys(
            log_entry(service, LogLevel::Error, f.message, f.log_pairs()).attributes,
        ),
{
    reveal_strlit("error.message");
    reveal_strlit("error.type");
    reveal_strlit("error.file");
    reveal_strlit("error.line");
    reveal_strlit("service.name");
    reveal_strlit("http.method");
    reveal_strlit("http.url");
    reveal_strlit("http.status_code");
    assert("error.message"@[6] == 'm');
    assert("error.type"@[6] == 't');
    assert("error.file"@[7] == 'i' && "error.file"@[6] == 'f');
    assert("error.line"@[6] == 'l');
    assert("service.name"@[0] == 's');
    assert("http.method"@[5] == 'm');
    assert("http.url"@[5] == 'u');
    assert("http.status_code"@[5] == 's');
    assert("error.message"@[0] == 'e');
    assert("error.type"@[0] == 'e');
    assert("error.file"@[0] == 'e');
    assert("error.line"@[0] == 'e');
    assert("http.method"@[0] == 'h');
    assert("http.url"@[0] == 'h');
    assert("http.status_code"@[0] == 'h');
}

} // verus!
