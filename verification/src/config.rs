//! Configuration of the SDK and the sampling rules that it sets.

use vstd::prelude::*;

use crate::glob;
use crate::rate::{Rate, AUTO_BITS, DEFAULT_BITS};
use crate::text;

pub use crate::level::LogLevel;

verus! {

/// Which traces are kept.
#[derive(Debug)]
pub struct TracesSamplingConfig {
    /// The share of traces that is kept, from 0 to 1; below 0 the default share.
    pub percentage: Rate,
    pub always_sample_errors: bool,
    pub always_sample_routes: Vec<String>,
    pub never_sample_routes: Vec<String>,
}

/// Which log messages are kept.
#[derive(Debug)]
pub struct LogsSamplingConfig {
    pub levels: Vec<LogLevel>,
    /// The lowest HTTP status that is always kept; 0 for none.
    pub min_http_status: u16,
    pub capture_on_trace_error: bool,
    pub always_capture_routes: Vec<String>,
    pub never_capture_routes: Vec<String>,
}

/// What is kept of traces and logs.
#[derive(Debug)]
pub struct SamplingConfig {
    pub traces: TracesSamplingConfig,
    pub logs: LogsSamplingConfig,
}

/// Where and how a service reports.
#[derive(Debug)]
pub struct Config {
    pub endpoint: String,
    /// The endpoint has the scheme `http://`, so no TLS is used.
    pub insecure: bool,
    pub service: String,
    pub token: Option<String>,
    pub protocol: String,
    pub sampling: SamplingConfig,
    pub timeout_seconds: u64,
    /// Failed HTTP requests are not submitted as errors.
    pub disable_http_error_reporting: bool,
}

/// What a `TracesSamplingConfig` holds.
pub struct TracesView {
    pub percentage: Rate,
    pub always_sample_errors: bool,
    pub always_sample_routes: Seq<Seq<char>>,
    pub never_sample_routes: Seq<Seq<char>>,
}

/// What a `LogsSamplingConfig` holds.
pub struct LogsView {
    pub levels: Seq<LogLevel>,
    pub min_http_status: u16,
    pub capture_on_trace_error: bool,
    pub always_capture_routes: Seq<Seq<char>>,
    pub never_capture_routes: Seq<Seq<char>>,
}

/// What a `SamplingConfig` holds.
pub struct SamplingView {
    pub traces: TracesView,
    pub logs: LogsView,
}

/// What a `Config` holds.
pub struct ConfigView {
    pub endpoint: Seq<char>,
    pub insecure: bool,
    pub service: Seq<char>,
    pub token: Option<Seq<char>>,
    pub protocol: Seq<char>,
    pub sampling: SamplingView,
    pub timeout_seconds: u64,
    pub disable_http_error_reporting: bool,
}

impl View for TracesSamplingConfig {
    type V = TracesView;

    open spec fn view(&self) -> TracesView {
        TracesView {
            percentage: self.percentage,
            always_sample_errors: self.always_sample_errors,
            always_sample_routes: text::texts(self.always_sample_routes@),
            never_sample_routes: text::texts(self.never_sample_routes@),
        }
    }
}

impl View for LogsSamplingConfig {
    type V = LogsView;

    open spec fn view(&self) -> LogsView {
        LogsView {
            levels: self.levels@,
            min_http_status: self.min_http_status,
            capture_on_trace_error: self.capture_on_trace_error,
            always_capture_routes: text::texts(self.always_capture_routes@),
            never_capture_routes: text::texts(self.never_capture_routes@),
        }
    }
}

impl View for SamplingConfig {
    type V = SamplingView;

    open spec fn view(&self) -> SamplingView {
        SamplingView { traces: self.traces@, logs: self.logs@ }
    }
}

impl View for Config {
    type V = ConfigView;

    open spec fn view(&self) -> ConfigView {
        ConfigView {
            endpoint: self.endpoint@,
            insecure: self.insecure,
            service: self.service@,
            token: text::opt_text(self.token),
            protocol: self.protocol@,
            sampling: self.sampling@,
            timeout_seconds: self.timeout_seconds,
            disable_http_error_reporting: self.disable_http_error_reporting,
        }
    }
}

/// The routes on which services answer probes.
pub open spec fn probe_routes() -> Seq<Seq<char>> {
    seq!["/health"@, "/metrics"@, "/ready"@, "/healthz"@, "/readyz"@]
}

/// The rules for traces with the given rate and no choices made.
pub open spec fn default_traces(percentage: Rate) -> TracesView {
    TracesView {
        percentage,
        always_sample_errors: true,
        always_sample_routes: seq![],
        never_sample_routes: probe_routes(),
    }
}

/// The rules for logs with no choices made.
pub open spec fn default_logs() -> LogsView {
    LogsView {
        levels: seq![LogLevel::Error, LogLevel::Fatal, LogLevel::Panic],
        min_http_status: 500,
        capture_on_trace_error: true,
        always_capture_routes: seq![],
        never_capture_routes: probe_routes(),
    }
}

/// The sampling rules with no choices made: one trace in ten.
pub open spec fn default_sampling() -> SamplingView {
    SamplingView {
        traces: default_traces(Rate { bits: DEFAULT_BITS }),
        logs: default_logs(),
    }
}

/// The configuration for an endpoint, a service and a token.
pub open spec fn config_for(
    endpoint: Seq<char>,
    service: Seq<char>,
    token: Option<Seq<char>>,
) -> ConfigView {
    let base = text::trim_end_of(endpoint, '/');
    ConfigView {
        endpoint: base,
        insecure: "http://"@.is_prefix_of(base),
        service,
        token,
        protocol: "http"@,
        sampling: default_sampling(),
        timeout_seconds: 5,
        disable_http_error_reporting: false,
    }
}

/// The rate that a share asks for: below 0 the default rate, otherwise itself.
pub open spec fn effective_rate(percentage: Rate) -> Rate {
    if percentage.below_zero() {
        Rate { bits: DEFAULT_BITS }
    } else {
        percentage
    }
}

/// Whether a trace is kept, where a random word decides in the last resort.
pub open spec fn trace_kept(
    traces: TracesView,
    route: Seq<char>,
    has_error: bool,
    draw: u64,
) -> bool {
    if glob::glob_any(route, traces.never_sample_routes) {
        traces.always_sample_errors && has_error
    } else {
        ||| glob::glob_any(route, traces.always_sample_routes)
        ||| traces.always_sample_errors && has_error
        ||| effective_rate(traces.percentage).exceeds(draw)
    }
}

/// What is settled about a trace before a random word is drawn.
pub open spec fn trace_rule(traces: TracesView, route: Seq<char>, has_error: bool) -> Option<bool> {
    if glob::glob_any(route, traces.never_sample_routes) {
        Some(traces.always_sample_errors && has_error)
    } else if glob::glob_any(route, traces.always_sample_routes) {
        Some(true)
    } else if traces.always_sample_errors && has_error {
        Some(true)
    } else if effective_rate(traces.percentage).at_least_one() {
        Some(true)
    } else if effective_rate(traces.percentage).at_most_zero() {
        Some(false)
    } else {
        None
    }
}

/// The status is one that the rules for logs always keep.
pub open spec fn status_kept(logs: LogsView, http_status: u16) -> bool {
    logs.min_http_status > 0 && http_status >= logs.min_http_status
}

/// Whether a log message is kept.
pub open spec fn log_kept(
    logs: LogsView,
    route: Seq<char>,
    level: LogLevel,
    http_status: u16,
    trace_has_error: bool,
) -> bool {
    if glob::glob_any(route, logs.never_capture_routes) {
        status_kept(logs, http_status)
    } else {
        ||| glob::glob_any(route, logs.always_capture_routes)
        ||| status_kept(logs, http_status)
        ||| logs.levels.contains(level)
        ||| logs.capture_on_trace_error && trace_has_error
    }
}

/// The routes on which services answer probes.
fn probe_route_list() -> (routes: Vec<String>)
    ensures
        text::texts(routes@) == probe_routes(),
{
    let mut routes: Vec<String> = Vec::new();
    routes.push("/health".to_string());
    routes.push("/metrics".to_string());
    routes.push("/ready".to_string());
    routes.push("/healthz".to_string());
    routes.push("/readyz".to_string());
    assert(text::texts(routes@) =~= probe_routes());
    routes
}

impl Default for TracesSamplingConfig {
    fn default() -> (config: Self)
        ensures
            config@ == default_traces(Rate { bits: AUTO_BITS }),
    {
        let config = TracesSamplingConfig {
            percentage: Rate { bits: AUTO_BITS },
            always_sample_errors: true,
            always_sample_routes: Vec::new(),
            never_sample_routes: probe_route_list(),
        };
        assert(config@.always_sample_routes =~= Seq::<Seq<char>>::empty());
        config
    }
}

impl Default for LogsSamplingConfig {
    fn default() -> (config: Self)
        ensures
            config@ == default_logs(),
    {
        let mut levels: Vec<LogLevel> = Vec::new();
        levels.push(LogLevel::Error);
        levels.push(LogLevel::Fatal);
        levels.push(LogLevel::Panic);
        let config = LogsSamplingConfig {
            levels,
            min_http_status: 500,
            capture_on_trace_error: true,
            always_capture_routes: Vec::new(),
            never_capture_routes: probe_route_list(),
        };
        assert(config@.levels =~= default_logs().levels);
        assert(config@.always_capture_routes =~= Seq::<Seq<char>>::empty());
        config
    }
}

/// The sampling rules of a new configuration.
pub fn default_sampling_config() -> (sampling: SamplingConfig)
    ensures
        sampling@ == default_sampling(),
{
    let mut traces: TracesSamplingConfig = TracesSamplingConfig::default();
    traces.percentage = Rate { bits: DEFAULT_BITS };
    SamplingConfig { traces, logs: LogsSamplingConfig::default() }
}

/// A configuration for an endpoint, a service and a token. Slashes at the end
/// of the endpoint are dropped.
pub fn new_config(endpoint: String, service: String, token: Option<String>) -> (config: Config)
    ensures
        config@ == config_for(endpoint@, service@, text::opt_text(token)),
{
    let base: String = text::trim_end_char(endpoint.as_str(), '/').to_string();
    let insecure: bool = text::starts_with(base.as_str(), "http://");
    Config {
        endpoint: base,
        insecure,
        service,
        token,
        protocol: "http".to_string(),
        sampling: default_sampling_config(),
        timeout_seconds: 5,
        disable_http_error_reporting: false,
    }
}

impl Clone for TracesSamplingConfig {
    fn clone(&self) -> (copy: Self)
        ensures
            copy@ == self@,
    {
        let copy = TracesSamplingConfig {
            percentage: self.percentage,
            always_sample_errors: self.always_sample_errors,
            always_sample_routes: self.always_sample_routes.clone(),
            never_sample_routes: self.never_sample_routes.clone(),
        };
        assert(copy.always_sample_routes@ =~= self.always_sample_routes@);
        assert(copy.never_sample_routes@ =~= self.never_sample_routes@);
        copy
    }
}

impl Clone for LogsSamplingConfig {
    fn clone(&self) -> (copy: Self)
        ensures
            copy@ == self@,
    {
        let copy = LogsSamplingConfig {
            levels: self.levels.clone(),
            min_http_status: self.min_http_status,
            capture_on_trace_error: self.capture_on_trace_error,
            always_capture_routes: self.always_capture_routes.clone(),
            never_capture_routes: self.never_capture_routes.clone(),
        };
        assert(copy.levels@ =~= self.levels@);
        assert(copy.always_capture_routes@ =~= self.always_capture_routes@);
        assert(copy.never_capture_routes@ =~= self.never_capture_routes@);
        copy
    }
}

impl Clone for SamplingConfig {
    fn clone(&self) -> (copy: Self)
        ensures
            copy@ == self@,
    {
        SamplingConfig { traces: self.traces.clone(), logs: self.logs.clone() }
    }
}

impl Clone for Config {
    fn clone(&self) -> (copy: Self)
        ensures
            copy@ == self@,
    {
        Config {
            endpoint: self.endpoint.clone(),
            insecure: self.insecure,
            service: self.service.clone(),
            token: text::copy_opt(&self.token),
            protocol: self.protocol.clone(),
            sampling: self.sampling.clone(),
            timeout_seconds: self.timeout_seconds,
            disable_http_error_reporting: self.disable_http_error_reporting,
        }
    }
}

/// A word of random bits from `rand::random`. Nothing is known of its value.
#[verifier::external_body]
fn random_word() -> (word: u64) {
    rand::random::<u64>()
}

/// What the rules settle about a trace without chance; `None` where chance
/// has to decide.
pub fn settled_trace(cfg: &Config, route: &str, has_error: bool) -> (kept: Option<bool>)
    ensures
        kept == trace_rule(cfg@.sampling.traces, route@, has_error),
{
    let traces: &TracesSamplingConfig = &cfg.sampling.traces;
    if glob::matches_any(route, &traces.never_sample_routes) {
        return Some(traces.always_sample_errors && has_error);
    }
    if glob::matches_any(route, &traces.always_sample_routes) {
        return Some(true);
    }
    if traces.always_sample_errors && has_error {
        return Some(true);
    }
    let rate: Rate = rate_in_force(traces.percentage);
    if rate.is_at_least_one() {
        return Some(true);
    }
    if rate.is_at_most_zero() {
        return Some(false);
    }
    None
}

/// The rate that a share asks for.
pub fn rate_in_force(percentage: Rate) -> (rate: Rate)
    ensures
        rate == effective_rate(percentage),
{
    if percentage.is_below_zero() {
        default_sampling_config().traces.percentage
    } else {
        percentage
    }
}

/// Whether a trace is kept, given the word that was drawn.
pub fn sample_trace_with_draw(cfg: &Config, route: &str, has_error: bool, draw: u64) -> (kept: bool)
    ensures
        kept == trace_kept(cfg@.sampling.traces, route@, has_error, draw),
{
    match settled_trace(cfg, route, has_error) {
        Some(kept) => {
            proof {
                settled_before_the_draw(cfg@.sampling.traces, route@, has_error, draw);
            }
            kept
        },
        None => rate_in_force(cfg.sampling.traces.percentage).is_above(draw),
    }
}

/// Whether a trace on a route is kept. A trace that the rules do not settle is
/// kept by chance, with the probability that the configuration sets.
pub fn should_sample_trace(cfg: &Config, route: &str, has_error: bool) -> (kept: bool)
    ensures
        trace_rule(cfg@.sampling.traces, route@, has_error) matches Some(settled) ==> kept
            == settled,
        exists|draw: u64| kept == #[trigger] trace_kept(
            cfg@.sampling.traces,
            route@,
            has_error,
            draw,
        ),
{
    match settled_trace(cfg, route, has_error) {
        Some(kept) => {
            proof {
                settled_before_the_draw(cfg@.sampling.traces, route@, has_error, 0);
            }
            kept
        },
        None => sample_trace_with_draw(cfg, route, has_error, random_word()),
    }
}

/// Whether a log message on a route is kept.
pub fn should_sample_log(
    cfg: &Config,
    route: &str,
    level: &LogLevel,
    http_status: u16,
    trace_has_error: bool,
) -> (kept: bool)
    ensures
        kept == log_kept(cfg@.sampling.logs, route@, *level, http_status, trace_has_error),
{
    let logs: &LogsSamplingConfig = &cfg.sampling.logs;
    let by_status: bool = logs.min_http_status > 0 && http_status >= logs.min_http_status;
    if glob::matches_any(route, &logs.never_capture_routes) {
        return by_status;
    }
    if glob::matches_any(route, &logs.always_capture_routes) {
        return true;
    }
    if by_status {
        return true;
    }
    if has_level(&logs.levels, level) {
        return true;
    }
    logs.capture_on_trace_error && trace_has_error
}

/// Whether `level` is one of `levels`.
fn has_level(levels: &Vec<LogLevel>, level: &LogLevel) -> (yes: bool)
    ensures
        yes == levels@.contains(*level),
{
    let mut i: usize = 0;
    while i < levels.len()
        invariant
            i <= levels.len(),
            forall|j: int| 0 <= j < i ==> levels[j] != *level,
        decreases levels.len() - i,
    {
        if levels[i] == *level {
            assert(levels@[i as int] == *level);
            return true;
        }
        i = i + 1;
    }
    false
}

/// What the rules settle about a trace holds whatever word is drawn.
pub proof fn settled_before_the_draw(
    traces: TracesView,
    route: Seq<char>,
    has_error: bool,
    draw: u64,
)
    ensures
        trace_rule(traces, route, has_error) matches Some(kept) ==> trace_kept(
            traces,
            route,
            has_error,
            draw,
        ) == kept,
{
    let rate = effective_rate(traces.percentage);
    if rate.at_least_one() {
        rate.full_rate_exceeds_every_draw(draw);
    } else if rate.at_most_zero() {
        rate.empty_rate_exceeds_no_draw(draw);
    }
}

/// Where errors are always sampled, a trace with an error is kept on every
/// route and whatever word is drawn.
pub proof fn errors_are_always_kept(traces: TracesView, route: Seq<char>, draw: u64)
    requires
        traces.always_sample_errors,
    ensures
        trace_kept(traces, route, true, draw),
        trace_rule(traces, route, true) == Some(true),
{
}

/// On a route that is never sampled, a trace is kept for an error alone, and
/// then only where errors are always sampled.
pub proof fn never_sampled_routes_come_first(
    traces: TracesView,
    route: Seq<char>,
    has_error: bool,
    draw: u64,
)
    requires
        glob::glob_any(route, traces.never_sample_routes),
    ensures
        trace_kept(traces, route, has_error, draw) == (traces.always_sample_errors && has_error),
{
}

/// A share below 0 samples as the default share does.
pub proof fn negative_share_means_the_default(
    traces: TracesView,
    route: Seq<char>,
    has_error: bool,
    draw: u64,
)
    requires
        traces.percentage.below_zero(),
    ensures
        trace_kept(traces, route, has_error, draw) == trace_kept(
            TracesView { percentage: default_sampling().traces.percentage, ..traces },
            route,
            has_error,
            draw,
        ),
{
    let default_rate = Rate { bits: DEFAULT_BITS };
    assert(default_rate.units() >= 0);
}

/// Of two shares from 0 up, the greater one keeps every trace that the other keeps.
pub proof fn greater_share_keeps_more(
    traces: TracesView,
    share: Rate,
    route: Seq<char>,
    has_error: bool,
    draw: u64,
)
    requires
        trace_kept(traces, route, has_error, draw),
        !traces.percentage.below_zero(),
        !share.not_a_number(),
        traces.percentage.units() <= share.units(),
        0 <= share.units(),
    ensures
        trace_kept(TracesView { percentage: share, ..traces }, route, has_error, draw),
{
}

/// A log message with a status from the configured one up is kept on every route.
pub proof fn kept_statuses_override_routes(
    logs: LogsView,
    route: Seq<char>,
    level: LogLevel,
    http_status: u16,
    trace_has_error: bool,
)
    requires
        status_kept(logs, http_status),
    ensures
        log_kept(logs, route, level, http_status, trace_has_error),
{
}

/// On a route that is never captured, a log message is kept for its status alone.
pub proof fn never_captured_routes_come_first(
    logs: LogsView,
    route: Seq<char>,
    level: LogLevel,
    http_status: u16,
    trace_has_error: bool,
)
    requires
        glob::glob_any(route, logs.never_capture_routes),
    ensures
        log_kept(logs, route, level, http_status, trace_has_error) == status_kept(
            logs,
            http_status,
        ),
{
}

/// The endpoint of a new configuration ends in no slash, and a configuration
/// made from that endpoint has the same one.
pub proof fn endpoint_is_normal(
    endpoint: Seq<char>,
    service: Seq<char>,
    token: Option<Seq<char>>,
)
    ensures
        ({
            let base = config_for(endpoint, service, token).endpoint;
            &&& base.is_prefix_of(endpoint)
            &&& base.len() > 0 ==> base.last() != '/'
            &&& config_for(base, service, token) == config_for(endpoint, service, token)
        }),
    decreases endpoint.len(),
{
    if endpoint.len() > 0 && endpoint.last() == '/' {
        endpoint_is_normal(endpoint.drop_last(), service, token);
        let base = text::trim_end_of(endpoint, '/');
        assert(endpoint.subrange(0, base.len() as int) =~= endpoint.drop_last().subrange(
            0,
            base.len() as int,
        ));
    } else {
        assert(endpoint.subrange(0, endpoint.len() as int) =~= endpoint);
    }
}

} // verus!
