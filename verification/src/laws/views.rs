//! Laws of views: what contracts speak of is what values hold, nothing left out
//! and nothing changed.

use vstd::prelude::*;

use crate::axum_middleware::RequestTrace;
use crate::client;
use crate::client::{ErrorReport, PipelinePlan};
use crate::config::{Config, LogsSamplingConfig, TracesSamplingConfig};
use crate::global::Startup;
use crate::telemetry;
use crate::telemetry::{
    Attribute, AttributeValue, HttpContext, LogEntry, Span, SpanStatus, StatusView, ValueView,
};
use crate::text;

verus! {

/// `shown` is the text of `held`, or nothing where nothing is held.
pub open spec fn same_option(shown: Option<Seq<char>>, held: Option<String>) -> bool {
    &&& shown is Some <==> held is Some
    &&& held is Some ==> shown->0 == held->0@
}

/// `shown` has the texts of `held`, one by one.
pub open spec fn same_texts(shown: Seq<Seq<char>>, held: Seq<String>) -> bool {
    &&& shown.len() == held.len()
    &&& forall|i: int| 0 <= i < held.len() ==> #[trigger] shown[i] == held[i]@
}

/// `shown` has the attributes of `held`, one by one.
pub open spec fn same_attributes(
    shown: Seq<telemetry::AttributeView>,
    held: Seq<Attribute>,
) -> bool {
    &&& shown.len() == held.len()
    &&& forall|i: int|
        0 <= i < held.len() ==> (#[trigger] shown[i]).key == held[i].key@ && match held[i].value {
            AttributeValue::Text(t) => shown[i].value == ValueView::Text(t@),
            AttributeValue::Integer(n) => shown[i].value == ValueView::Integer(n as int),
            AttributeValue::Flag(b) => shown[i].value == ValueView::Flag(b),
        }
}

/// Sampling rules are seen as they are set, with every route and level in its
/// place.
pub proof fn sampling_rules_are_seen_whole(
    traces: TracesSamplingConfig,
    logs: LogsSamplingConfig,
)
    ensures
        traces@.percentage == traces.percentage,
        traces@.always_sample_errors == traces.always_sample_errors,
        same_texts(traces@.always_sample_routes, traces.always_sample_routes@),
        same_texts(traces@.never_sample_routes, traces.never_sample_routes@),
        logs@.levels == logs.levels@,
        logs@.min_http_status == logs.min_http_status,
        logs@.capture_on_trace_error == logs.capture_on_trace_error,
        same_texts(logs@.always_capture_routes, logs.always_capture_routes@),
        same_texts(logs@.never_capture_routes, logs.never_capture_routes@),
{
}

/// A configuration is seen as it is set.
pub proof fn configuration_is_seen_whole(config: Config)
    ensures
        config@.endpoint == config.endpoint@,
        config@.insecure == config.insecure,
        config@.service == config.service@,
        same_option(config@.token, config.token),
        config@.protocol == config.protocol@,
        config@.sampling.traces == config.sampling.traces@,
        config@.sampling.logs == config.sampling.logs@,
        config@.timeout_seconds == config.timeout_seconds,
        config@.disable_http_error_reporting == config.disable_http_error_reporting,
{
}

/// Spans, log entries and reports are seen with all that they carry.
pub proof fn telemetry_is_seen_whole(span: Span, entry: LogEntry, report: ErrorReport)
    ensures
        span@.name == span.name@,
        span@.kind == span.kind,
        same_attributes(span@.attributes, span.attributes@),
        match span.status {
            SpanStatus::Succeeded => span@.status is Succeeded,
            SpanStatus::Failed(message) => span@.status == StatusView::Failed(message@),
        },
        entry@.severity == entry.severity,
        entry@.severity_text == entry.severity_text@,
        entry@.body == entry.body@,
        same_attributes(entry@.attributes, entry.attributes@),
        report@.span == report.span@,
        report@.log is Some <==> report.log is Some,
        report.log is Some ==> report@.log->0 == report.log->0@,
{
}

/// The context of an error and the facts of a request are seen as they are set.
pub proof fn requests_are_seen_whole(context: HttpContext, request: RequestTrace)
    ensures
        same_option(context@.method, context.method),
        same_option(context@.url, context.url),
        context@.status_code == context.status_code,
        same_option(context@.headers, context.headers),
        same_option(context@.body, context.body),
        request.known().method == request.method@,
        request.known().route == request.route@,
        request.known().url == request.url@,
{
}

/// Plans and starts are seen with all that they ask for.
pub proof fn plans_are_seen_whole(plan: PipelinePlan, startup: Startup)
    ensures
        plan@.service == plan.service@,
        plan@.traces_url == plan.traces_url@,
        plan@.logs_url == plan.logs_url@,
        plan@.headers.len() == plan.headers@.len(),
        forall|i: int|
            0 <= i < plan.headers@.len() ==> (#[trigger] plan@.headers[i]).0 == plan.headers@[i].0@
                && plan@.headers[i].1 == plan.headers@[i].1@,
        startup@.config == startup.config@,
        same_texts(startup@.notices, startup.notices@),
{
}

/// Pairs that are given along are seen one by one, and none where none are.
pub proof fn pairs_are_seen_whole(pairs: &Vec<(String, String)>)
    ensures
        client::given_pairs(None).len() == 0,
        client::given_pairs(Some(pairs)).len() == pairs@.len(),
        forall|i: int|
            0 <= i < pairs@.len() ==> (#[trigger] client::given_pairs(Some(pairs))[i]).0
                == pairs@[i].0@ && client::given_pairs(Some(pairs))[i].1 == pairs@[i].1@,
{
}

/// An optional text is seen as it is.
pub proof fn optional_texts_are_seen_whole(held: Option<String>, lent: Option<&str>)
    ensures
        same_option(text::opt_text(held), held),
        text::opt_str(lent) is Some <==> lent is Some,
        lent is Some ==> text::opt_str(lent)->0 == lent->0@,
{
}

} // verus!
