//! The client that an application reports through.

use vstd::prelude::*;
use vstd::string::*;

use crate::client;
use crate::client::{
    ClientView, ErrorReport, Failure, OTelClient, PipelineOutcome, ShutdownPlan,
};
use crate::config::{Config, ConfigView};
use crate::error::Error;
use crate::level::LogLevel;
use crate::submission;
use crate::submission::Submission;
use crate::telemetry::{HttpContext, HttpView, LogEntry};
use crate::text;

verus! {

/// A client of an application, with the configuration that it was made from.
#[derive(Debug)]
pub struct MiddleMonitorClient {
    pub config: Config,
    otel_client: OTelClient,
}

/// What a `MiddleMonitorClient` holds.
pub struct MonitorView {
    pub config: ConfigView,
    pub client: ClientView,
}

/// What a panic was raised with.
#[derive(Debug)]
pub enum PanicPayload {
    /// A message.
    Message(String),
    /// A value of another type.
    Unknown,
}

/// A panic, with the place where it was raised where that is known.
#[derive(Debug)]
pub struct PanicNotice {
    pub file: Option<String>,
    pub line: Option<u32>,
    pub payload: PanicPayload,
}

impl View for MiddleMonitorClient {
    type V = MonitorView;

    closed spec fn view(&self) -> MonitorView {
        MonitorView { config: self.config@, client: self.otel_client@ }
    }
}

/// A file of the application itself: not of the toolchain, of a dependency, of
/// the build output or of the standard library, no test and nothing generated.
pub open spec fn application_file(file: Seq<char>) -> bool {
    &&& file.len() > 0
    &&& !text::occurs_in(file, "/.cargo/"@)
    &&& !text::occurs_in(file, "/rustc/"@)
    &&& !text::occurs_in(file, "/target/"@)
    &&& !text::occurs_in(file, "/vendor/"@)
    &&& !text::occurs_in(file, "/node_modules/"@)
    &&& !text::occurs_in(file, "libstd"@)
    &&& !text::occurs_in(file, "libcore"@)
    &&& !text::occurs_in(file, "liballoc"@)
    &&& !text::occurs_in(file, "_test.rs"@)
    &&& !text::occurs_in(file, ".gen.rs"@)
}

/// A signed line number as the unsigned one with the same bits.
pub open spec fn unsigned_line(line: i32) -> u32 {
    if line >= 0 {
        line as u32
    } else {
        (line + 0x1_0000_0000) as u32
    }
}

/// The unsigned line of an optional line number.
pub open spec fn unsigned_opt_line(line: Option<i32>) -> Option<u32> {
    match line {
        Some(l) => Some(unsigned_line(l)),
        None => None,
    }
}

/// The message of an error with a name.
pub open spec fn named_message(name: Seq<char>, message: Seq<char>) -> Seq<char> {
    name + ": "@ + message
}

/// The message of a panic.
pub open spec fn panic_message(payload: PanicPayload) -> Seq<char> {
    "Panic: "@ + match payload {
        PanicPayload::Message(message) => message@,
        PanicPayload::Unknown => "Panic occurred"@,
    }
}

/// An error of the given type, with its place where that is known.
pub open spec fn plain_failure(
    message: Seq<char>,
    error_type: Seq<char>,
    file: Option<Seq<char>>,
    line: Option<i32>,
) -> Failure {
    Failure { message, error_type, file, line: unsigned_opt_line(line), http: None }
}

/// An error with a name, in its place.
pub open spec fn custom_failure(
    name: Seq<char>,
    message: Seq<char>,
    file: Seq<char>,
    line: i32,
    error_type: Seq<char>,
) -> Failure {
    Failure {
        message: named_message(name, message),
        error_type,
        file: Some(file),
        line: Some(unsigned_line(line)),
        http: None,
    }
}

/// What is known of a request that was not answered.
pub open spec fn request_view(
    method: Option<Seq<char>>,
    url: Option<Seq<char>>,
    headers: Option<Seq<char>>,
    body: Option<Seq<char>>,
) -> HttpView {
    HttpView { method, url, status_code: None, headers, body }
}

/// A panic as an error.
pub open spec fn panic_failure(notice: PanicNotice, error_type: Seq<char>) -> Failure {
    Failure {
        message: panic_message(notice.payload),
        error_type,
        file: Some(
            match notice.file {
                Some(file) => file@,
                None => "unknown"@,
            },
        ),
        line: Some(
            match notice.line {
                Some(line) => line,
                None => 0,
            },
        ),
        http: None,
    }
}

/// `result` is what a client makes of an error in a file: nothing where the
/// file is not one of the application.
pub open spec fn filtered_report(
    client: ClientView,
    file: Seq<char>,
    failure: Failure,
    result: Result<Option<ErrorReport>, Error>,
) -> bool {
    if application_file(file) {
        client::report_follows(client, failure, result)
    } else {
        result matches Ok(None)
    }
}

/// The notice that a client gives when its pipeline was not built.
pub open spec fn init_warning(outcome: PipelineOutcome) -> Option<Seq<char>> {
    let start = "[Middle-Monitor] Warning: failed to initialize OpenTelemetry client: "@;
    match outcome {
        PipelineOutcome::Ready => None,
        PipelineOutcome::TracerFailed(reason) => Some(start + reason@),
        PipelineOutcome::LoggerFailed(reason) => Some(start + reason@),
    }
}

/// The unsigned line number with the same bits.
fn line_bits(line: i32) -> (bits: u32)
    ensures
        bits == unsigned_line(line),
{
    if line < 0 {
        assert((line as u32) == line + 0x1_0000_0000) by (bit_vector)
            requires
                line < 0,
        ;
    }
    #[verifier::truncate]
    (line as u32)
}

/// The message of an error with a name.
fn name_and_message(name: &str, message: &str) -> (whole: String)
    ensures
        whole@ == named_message(name@, message@),
{
    name.to_string().concat(": ").concat(message)
}

impl MiddleMonitorClient {
    /// A client for a configuration, whose pipeline was built with the given
    /// outcome. A pipeline that was not built is no obstacle; it leads to a notice.
    pub fn new(cfg: Config, outcome: PipelineOutcome) -> (made: (Self, Option<String>))
        ensures
            made.0@.config == cfg@,
            made.0@.client == client::after_init(client::new_client(cfg@), outcome),
            text::opt_text(made.1) == init_warning(outcome),
    {
        let mut otel_client: OTelClient = OTelClient::new(cfg.clone());
        let warning: Option<String> = match otel_client.init(outcome) {
            Ok(_) => None,
            Err(reason) => Some(
                "[Middle-Monitor] Warning: failed to initialize OpenTelemetry client: ".to_string().concat(
                    reason.as_str(),
                ),
            ),
        };
        (MiddleMonitorClient { config: cfg, otel_client }, warning)
    }

    /// The configuration that the client was made from.
    pub fn config(&self) -> (config: &Config)
        ensures
            config@ == self@.config,
    {
        &self.config
    }

    /// Whether the pipeline of the client stands.
    pub fn is_initialized(&self) -> (yes: bool)
        ensures
            yes == self@.client.initialized,
    {
        self.otel_client.is_initialized()
    }

    /// Whether a file is one of the application.
    pub fn is_application_error(&self, file: &str) -> (yes: bool)
        ensures
            yes == application_file(file@),
    {
        if file.is_empty() {
            return false;
        }
        !(text::contains(file, "/.cargo/") || text::contains(file, "/rustc/") || text::contains(
            file,
            "/target/",
        ) || text::contains(file, "/vendor/") || text::contains(file, "/node_modules/")
            || text::contains(file, "libstd") || text::contains(file, "libcore")
            || text::contains(file, "liballoc")) && !text::contains(file, "_test.rs")
            && !text::contains(file, ".gen.rs")
    }

    /// The report of an error of the given type, in the file and line given.
    pub fn report_error(
        &self,
        error: &str,
        file: Option<String>,
        line: Option<i32>,
        error_type: &str,
    ) -> (result: Result<Option<ErrorReport>, Error>)
        ensures
            ({
                let f = plain_failure(error@, error_type@, text::opt_text(file), line);
                filtered_report(self@.client, f.file_text(), f, result)
            }),
    {
        let given: Option<&str> = match &file {
            Some(name) => Some(name.as_str()),
            None => None,
        };
        let file_text: &str = match given {
            Some(name) => name,
            None => "unknown",
        };
        if !self.is_application_error(file_text) {
            return Ok(None);
        }
        let unsigned: Option<u32> = match line {
            Some(l) => Some(line_bits(l)),
            None => None,
        };
        self.otel_client.report_error(error, error_type, given, unsigned, None)
    }

    /// The report of an error with a name.
    pub fn report_custom_error(
        &self,
        name: &str,
        message: &str,
        file: &str,
        line: i32,
        error_type: &str,
    ) -> (result: Result<Option<ErrorReport>, Error>)
        ensures
            filtered_report(
                self@.client,
                file@,
                custom_failure(name@, message@, file@, line, error_type@),
                result,
            ),
    {
        if !self.is_application_error(file) {
            return Ok(None);
        }
        let whole: String = name_and_message(name, message);
        self.otel_client.report_error(
            whole.as_str(),
            error_type,
            Some(file),
            Some(line_bits(line)),
            None,
        )
    }

    /// The report of an error with a name, which came up in a request.
    pub fn report_custom_error_with_http(
        &self,
        name: &str,
        message: &str,
        file: &str,
        line: i32,
        http_method: Option<&str>,
        http_url: Option<&str>,
        http_headers: Option<&str>,
        http_body: Option<&str>,
        error_type: &str,
    ) -> (result: Result<Option<ErrorReport>, Error>)
        ensures
            filtered_report(
                self@.client,
                file@,
                (Failure {
                    http: Some(
                        request_view(
                            text::opt_str(http_method),
                            text::opt_str(http_url),
                            text::opt_str(http_headers),
                            text::opt_str(http_body),
                        ),
                    ),
                    ..custom_failure(name@, message@, file@, line, error_type@)
                }),
                result,
            ),
    {
        if !self.is_application_error(file) {
            return Ok(None);
        }
        let whole: String = name_and_message(name, message);
        let context = HttpContext {
            method: text::own_opt(http_method),
            url: text::own_opt(http_url),
            status_code: None,
            headers: text::own_opt(http_headers),
            body: text::own_opt(http_body),
        };
        self.otel_client.report_error(
            whole.as_str(),
            error_type,
            Some(file),
            Some(line_bits(line)),
            Some(&context),
        )
    }

    /// The report of a panic, in whatever file it was raised.
    pub fn capture_panic(&self, notice: &PanicNotice, error_type: &str) -> (result: Result<
        Option<ErrorReport>,
        Error,
    >)
        ensures
            client::report_follows(
                self@.client,
                panic_failure(*notice, error_type@),
                result,
            ),
    {
        let file: &str = match &notice.file {
            Some(name) => name.as_str(),
            None => "unknown",
        };
        let line: u32 = match notice.line {
            Some(number) => number,
            None => 0,
        };
        let said: &str = match &notice.payload {
            PanicPayload::Message(message) => message.as_str(),
            PanicPayload::Unknown => "Panic occurred",
        };
        let whole: String = "Panic: ".to_string().concat(said);
        self.otel_client.report_error(whole.as_str(), error_type, Some(file), Some(line), None)
    }

    /// The log entry for a message.
    pub fn log(
        &self,
        level: &LogLevel,
        message: &str,
        attrs: Option<&Vec<(String, String)>>,
    ) -> (entry: Result<LogEntry, Error>)
        ensures
            client::log_made(
                self@.client,
                *level,
                message@,
                client::given_pairs(attrs),
                entry,
            ),
    {
        self.otel_client.log(level, message, attrs)
    }

    /// Whether there are log entries to be flushed.
    pub fn flush_logs(&self) -> (flush: bool)
        ensures
            flush == self@.client.logger_provider,
    {
        self.otel_client.flush_logs()
    }

    /// The request that submits an error of an application.
    pub fn submit_application_error(
        &self,
        name: &str,
        message: &str,
        file: &str,
        line: i32,
        status_code: u16,
        method: Option<&str>,
        url: Option<&str>,
        request_body: Option<&str>,
    ) -> (submission: Submission)
        ensures
            exists|timestamp: Seq<char>|
                submission::utc_time(timestamp) && #[trigger] submission::submits(
                    submission,
                    self@.client.config,
                    submission::app_error(name, message, file, line, method, url, request_body),
                    timestamp,
                ),
    {
        self.otel_client.submit_application_error(
            name,
            message,
            file,
            line,
            status_code,
            method,
            url,
            request_body,
        )
    }

    /// Shuts the client down, and tells which parts of its pipeline have to be
    /// shut down.
    pub fn shutdown(&mut self) -> (plan: ShutdownPlan)
        ensures
            final(self)@.config == old(self)@.config,
            final(self)@.client == client::after_shutdown(old(self)@.client),
            client::shutdown_follows(old(self)@.client, plan),
    {
        self.otel_client.shutdown()
    }
}

/// An error whose file is not known is taken for one of the application.
pub proof fn unknown_file_is_reported()
    ensures
        application_file("unknown"@),
{
    reveal_strlit("unknown");
    reveal_strlit("/.cargo/");
    reveal_strlit("/rustc/");
    reveal_strlit("/target/");
    reveal_strlit("/vendor/");
    reveal_strlit("/node_modules/");
    reveal_strlit("libstd");
    reveal_strlit("libcore");
    reveal_strlit("liballoc");
    reveal_strlit("_test.rs");
    reveal_strlit(".gen.rs");
    let file = "unknown"@;
    assert forall|mark: Seq<char>, i: int|
        mark.len() > 0 && (mark[0] == '/' || mark[0] == 'l' || mark[0] == '_' || mark[0]
            == '.') implies !#[trigger] text::occurs_at(file, mark, i) by {
        if text::occurs_at(file, mark, i) {
            assert(file.subrange(i, i + mark.len())[0] == file[i]);
        }
    }
}

/// No file whose path holds one of the marks is one of the application, and
/// what stands around the mark does not matter.
pub proof fn marked_files_are_not_reported(before: Seq<char>, mark: Seq<char>, after: Seq<char>)
    requires
        mark == "/.cargo/"@ || mark == "/rustc/"@ || mark == "/target/"@ || mark == "/vendor/"@
            || mark == "/node_modules/"@ || mark == "libstd"@ || mark == "libcore"@ || mark
            == "liballoc"@ || mark == "_test.rs"@ || mark == ".gen.rs"@,
    ensures
        !application_file(before + mark + after),
{
    let file = before + mark + after;
    let at = before.len() as int;
    assert(file.subrange(at, at + mark.len()) =~= mark);
    assert(text::occurs_at(file, mark, at));
}

} // verus!
