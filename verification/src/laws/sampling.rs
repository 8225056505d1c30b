//! Laws of rates, of sampling and of new configurations.

use vstd::arithmetic::power2::*;
use vstd::prelude::*;

use crate::config;
use crate::config::{LogsView, TracesView};
use crate::glob;
use crate::level::LogLevel;
use crate::rate;
use crate::rate::Rate;

verus! {

/// The route fits none of the patterns.
pub open spec fn fits_none(route: Seq<char>, patterns: Seq<Seq<char>>) -> bool {
    forall|j: int| 0 <= j < patterns.len() ==> !glob::glob(route, #[trigger] patterns[j])
}

/// Neighbouring sizes differ by one unit for the least exponents, and by twice
/// as much with each greater exponent.
pub proof fn sizes_step_by_their_exponent(m: nat)
    ensures
        rate::size_units(0) == 0,
        ({
            let exponent = m / 0x10_0000_0000_0000;
            rate::size_units(m + 1) - rate::size_units(m) == pow2(
                if exponent == 0 {
                    0
                } else {
                    (exponent - 1) as nat
                },
            )
        }),
{
    let n: nat = 0x10_0000_0000_0000;
    let (e, f) = (m / n, m % n);
    lemma2_to64();
    if f + 1 < n {
        assert((m + 1) / n == e && (m + 1) % n == f + 1);
        if e > 0 {
            let p = pow2((e - 1) as nat);
            assert((n + (f + 1)) * p == (n + f) * p + p) by (nonlinear_arith);
        }
    } else {
        assert((m + 1) / n == e + 1 && (m + 1) % n == 0);
        if e > 0 {
            let p = pow2((e - 1) as nat);
            lemma_pow2_unfold(e);
            assert(n * (2 * p) == (n + (n - 1)) * p + p) by (nonlinear_arith);
        } else {
            assert(pow2(0) == 1);
            assert((n + 0) * 1 == n);
        }
    }
}

/// The sign turns a rate round and leaves its size; the bits of no number are
/// those with the greatest exponent and a fraction.
pub proof fn sign_and_exponent_are_read_apart(size: u64)
    requires
        size < 0x8000_0000_0000_0000,
    ensures
        ({
            let plus = Rate { bits: size };
            let minus = Rate { bits: (size + 0x8000_0000_0000_0000) as u64 };
            &&& plus.units() == rate::size_units(size as nat)
            &&& minus.units() == -plus.units()
            &&& plus.not_a_number() == minus.not_a_number()
            &&& plus.not_a_number() <==> size / 0x10_0000_0000_0000 == 0x7ff && size
                % 0x10_0000_0000_0000 > 0
        }),
{
}

/// A draw stands for its upper 53 bits as a fraction of 1.
pub proof fn draw_is_a_fraction_of_one(draw: u64)
    ensures
        rate::draw_units(draw) * pow2(53) == (draw / 2048) * rate::one_units(),
        rate::draw_units(draw) < rate::one_units(),
{
    lemma_pow2_adds(1021, 53);
    lemma2_to64_rest();
    let w = (draw / 2048) as nat;
    let (p, q) = (pow2(1021), pow2(53));
    assert((w * p) * q == w * (p * q)) by (nonlinear_arith);
    lemma_pow2_pos(1021);
    assert(w < q);
    assert(w * p < q * p) by (nonlinear_arith)
        requires
            w < q,
            p > 0,
    ;
    assert(q * p == p * q) by (nonlinear_arith);
}

/// A rate of `n` in 2<sup>53</sup> exceeds `n` of the 2<sup>53</sup> fractions
/// that a draw may stand for.
pub proof fn rate_exceeds_its_share_of_draws(share: Rate, n: nat, draw: u64)
    requires
        !share.not_a_number(),
        share.units() == n * pow2(1021),
    ensures
        share.exceeds(draw) <==> draw / 2048 < n,
{
    let w = (draw / 2048) as nat;
    let p = pow2(1021);
    lemma_pow2_pos(1021);
    assert(w < n <==> w * p < n * p) by (nonlinear_arith)
        requires
            p > 0,
    ;
}

/// A rate lies from -1 to 1 exactly where its bits without the sign are at most
/// those of 1; below zero it stands for the default rate, and otherwise for itself.
pub proof fn rate_is_taken_by_its_range(share: Rate)
    ensures
        share.in_range() <==> share.bits % 0x8000_0000_0000_0000 <= 0x3ff0_0000_0000_0000,
        share.in_range() ==> !share.not_a_number() && -rate::one_units() <= share.units()
            <= rate::one_units(),
        rate::size_units(0x3ff0_0000_0000_0000) == rate::one_units(),
        !share.not_a_number() && share.units() < 0 ==> config::effective_rate(share)
            == config::default_sampling().traces.percentage,
        share.not_a_number() || share.units() >= 0 ==> config::effective_rate(share) == share,
{
    let size = share.size_bits();
    rate::size_compares_with_one_as_its_bits(size);
    rate::size_compares_with_one_as_its_bits(0x3ff0_0000_0000_0000);
}

/// Nobody has to choose anything: by default errors are always sampled, no route
/// is always kept, the routes of probes never are, errors and graver messages
/// are, and so are messages of failed traces and of server errors.
pub proof fn default_rules_are_these()
    ensures
        ({
            let traces = config::default_sampling().traces;
            let logs = config::default_sampling().logs;
            &&& traces.always_sample_errors
            &&& traces.always_sample_routes.len() == 0
            &&& traces.never_sample_routes == config::probe_routes()
            &&& logs.levels == seq![LogLevel::Error, LogLevel::Fatal, LogLevel::Panic]
            &&& logs.min_http_status == 500
            &&& logs.capture_on_trace_error
            &&& logs.always_capture_routes.len() == 0
            &&& logs.never_capture_routes == config::probe_routes()
            &&& config::probe_routes().len() == 5
            &&& config::probe_routes().contains("/health"@)
            &&& config::probe_routes().contains("/healthz"@)
            &&& config::probe_routes().contains("/ready"@)
            &&& config::probe_routes().contains("/readyz"@)
            &&& config::probe_routes().contains("/metrics"@)
        }),
{
    let probes = config::probe_routes();
    assert(probes[0] == "/health"@ && probes[1] == "/metrics"@ && probes[2] == "/ready"@);
    assert(probes[3] == "/healthz"@ && probes[4] == "/readyz"@);
}

/// On a route that fits a pattern for routes never to sample, a trace is kept
/// for an error that is always sampled, and for nothing else.
pub proof fn never_sampled_pattern_wins(
    traces: TracesView,
    i: int,
    route: Seq<char>,
    has_error: bool,
    draw: u64,
)
    requires
        0 <= i < traces.never_sample_routes.len(),
        glob::glob(route, traces.never_sample_routes[i]),
    ensures
        config::trace_kept(traces, route, has_error, draw) <==> traces.always_sample_errors
            && has_error,
        config::trace_rule(traces, route, has_error) == Some(
            traces.always_sample_errors && has_error,
        ),
{
    assert(glob::glob_any(route, traces.never_sample_routes));
}

/// On a route that fits a pattern for routes always to sample, and none for
/// routes never to sample, every trace is kept, whatever the share is.
pub proof fn always_sampled_pattern_keeps(
    traces: TracesView,
    i: int,
    route: Seq<char>,
    has_error: bool,
    draw: u64,
)
    requires
        fits_none(route, traces.never_sample_routes),
        0 <= i < traces.always_sample_routes.len(),
        glob::glob(route, traces.always_sample_routes[i]),
    ensures
        config::trace_kept(traces, route, has_error, draw),
        config::trace_rule(traces, route, has_error) == Some(true),
{
    assert(glob::glob_any(route, traces.always_sample_routes));
}

/// Where neither route nor error decides, the share does: from 1 up all traces
/// are kept, at 0 none, between them those whose draw lies below it. A share
/// below 0 stands for the default share, and no number for none at all.
pub proof fn share_decides_in_the_end(
    traces: TracesView,
    route: Seq<char>,
    has_error: bool,
    draw: u64,
)
    requires
        fits_none(route, traces.never_sample_routes),
        fits_none(route, traces.always_sample_routes),
        !(traces.always_sample_errors && has_error),
    ensures
        ({
            let share = traces.percentage;
            let default_share = config::default_sampling().traces.percentage;
            let kept = config::trace_kept(traces, route, has_error, draw);
            let rule = config::trace_rule(traces, route, has_error);
            &&& share.not_a_number() ==> !kept && rule is None
            &&& !share.not_a_number() && share.units() < 0 ==> kept == (rate::draw_units(draw)
                < default_share.units()) && rule is None
            &&& !share.not_a_number() && share.units() == 0 ==> !kept && rule == Some(false)
            &&& !share.not_a_number() && 0 < share.units() < rate::one_units() ==> kept == (
            rate::draw_units(draw) < share.units()) && rule is None
            &&& !share.not_a_number() && share.units() >= rate::one_units() ==> kept && rule
                == Some(true)
        }),
{
    let share = traces.percentage;
    let default_share = config::default_sampling().traces.percentage;
    draw_is_a_fraction_of_one(draw);
    let default_size = default_share.size_bits();
    rate::size_compares_with_one_as_its_bits(default_size);
    sizes_step_by_their_exponent(0);
    rate::size_grows_with_its_bits(0, default_size);
    lemma_pow2_pos(1074);
}

/// Neither the order of the routes nor repetitions among them matter: two sets
/// of rules that list the same patterns decide alike.
pub proof fn order_of_sampled_routes_does_not_matter(
    one: TracesView,
    other: TracesView,
    route: Seq<char>,
    has_error: bool,
    draw: u64,
)
    requires
        one.percentage == other.percentage,
        one.always_sample_errors == other.always_sample_errors,
        one.never_sample_routes.to_set() == other.never_sample_routes.to_set(),
        one.always_sample_routes.to_set() == other.always_sample_routes.to_set(),
    ensures
        config::trace_kept(one, route, has_error, draw) == config::trace_kept(
            other,
            route,
            has_error,
            draw,
        ),
        config::trace_rule(one, route, has_error) == config::trace_rule(other, route, has_error),
{
    lemma_same_patterns(route, one.never_sample_routes, other.never_sample_routes);
    lemma_same_patterns(route, other.never_sample_routes, one.never_sample_routes);
    lemma_same_patterns(route, one.always_sample_routes, other.always_sample_routes);
    lemma_same_patterns(route, other.always_sample_routes, one.always_sample_routes);
}

proof fn lemma_same_patterns(route: Seq<char>, a: Seq<Seq<char>>, b: Seq<Seq<char>>)
    requires
        a.to_set() == b.to_set(),
    ensures
        glob::glob_any(route, a) ==> glob::glob_any(route, b),
{
    if glob::glob_any(route, a) {
        let i = choose|i: int| 0 <= i < a.len() && glob::glob(route, #[trigger] a[i]);
        assert(a.to_set().contains(a[i]));
        assert(b.to_set().contains(a[i]));
        let j = choose|j: int| 0 <= j < b.len() && b[j] == a[i];
        assert(glob::glob(route, b[j]));
    }
}

/// On a route that fits a pattern for routes never to capture, a message is kept
/// for a status that is always kept, and for nothing else.
pub proof fn never_captured_pattern_wins(
    logs: LogsView,
    i: int,
    route: Seq<char>,
    level: LogLevel,
    http_status: u16,
    trace_has_error: bool,
)
    requires
        0 <= i < logs.never_capture_routes.len(),
        glob::glob(route, logs.never_capture_routes[i]),
    ensures
        config::log_kept(logs, route, level, http_status, trace_has_error) <==> 0
            < logs.min_http_status <= http_status,
{
    assert(glob::glob_any(route, logs.never_capture_routes));
}

/// A message with a status from the configured one up is kept, on every route.
pub proof fn high_status_keeps_the_message(
    logs: LogsView,
    route: Seq<char>,
    level: LogLevel,
    http_status: u16,
    trace_has_error: bool,
)
    requires
        0 < logs.min_http_status <= http_status,
    ensures
        config::log_kept(logs, route, level, http_status, trace_has_error),
{
}

/// On a route that fits a pattern for routes always to capture, and none for
/// routes never to capture, every message is kept.
pub proof fn always_captured_pattern_keeps(
    logs: LogsView,
    i: int,
    route: Seq<char>,
    level: LogLevel,
    http_status: u16,
    trace_has_error: bool,
)
    requires
        fits_none(route, logs.never_capture_routes),
        0 <= i < logs.always_capture_routes.len(),
        glob::glob(route, logs.always_capture_routes[i]),
    ensures
        config::log_kept(logs, route, level, http_status, trace_has_error),
{
    assert(glob::glob_any(route, logs.always_capture_routes));
}

/// On a route that is not kept out, a message is kept whose level stands
/// anywhere in the list.
pub proof fn listed_level_keeps_the_message(
    logs: LogsView,
    i: int,
    route: Seq<char>,
    http_status: u16,
    trace_has_error: bool,
)
    requires
        fits_none(route, logs.never_capture_routes),
        0 <= i < logs.levels.len(),
    ensures
        config::log_kept(logs, route, logs.levels[i], http_status, trace_has_error),
{
    assert(logs.levels.contains(logs.levels[i]));
}

/// On a route that is not kept out, a message of a failed trace is kept where
/// that is asked for.
pub proof fn failed_trace_keeps_the_message(
    logs: LogsView,
    route: Seq<char>,
    level: LogLevel,
    http_status: u16,
)
    requires
        fits_none(route, logs.never_capture_routes),
        logs.capture_on_trace_error,
    ensures
        config::log_kept(logs, route, level, http_status, true),
{
}

/// A message for which nothing speaks is not kept: no route, no status, no level
/// and no failed trace.
pub proof fn nothing_else_keeps_a_message(
    logs: LogsView,
    route: Seq<char>,
    level: LogLevel,
    http_status: u16,
    trace_has_error: bool,
)
    requires
        fits_none(route, logs.always_capture_routes),
        logs.min_http_status == 0 || http_status < logs.min_http_status,
        forall|i: int| 0 <= i < logs.levels.len() ==> #[trigger] logs.levels[i] != level,
        !(logs.capture_on_trace_error && trace_has_error),
    ensures
        !config::log_kept(logs, route, level, http_status, trace_has_error),
{
}

/// Neither the order of levels and routes nor repetitions among them matter: two
/// sets of rules that list the same ones decide alike.
pub proof fn order_of_log_rules_does_not_matter(
    one: LogsView,
    other: LogsView,
    route: Seq<char>,
    level: LogLevel,
    http_status: u16,
    trace_has_error: bool,
)
    requires
        one.levels.to_set() == other.levels.to_set(),
        one.min_http_status == other.min_http_status,
        one.capture_on_trace_error == other.capture_on_trace_error,
        one.always_capture_routes.to_set() == other.always_capture_routes.to_set(),
        one.never_capture_routes.to_set() == other.never_capture_routes.to_set(),
    ensures
        config::log_kept(one, route, level, http_status, trace_has_error) == config::log_kept(
            other,
            route,
            level,
            http_status,
            trace_has_error,
        ),
{
    lemma_same_patterns(route, one.never_capture_routes, other.never_capture_routes);
    lemma_same_patterns(route, other.never_capture_routes, one.never_capture_routes);
    lemma_same_patterns(route, one.always_capture_routes, other.always_capture_routes);
    lemma_same_patterns(route, other.always_capture_routes, one.always_capture_routes);
    assert(one.levels.to_set().contains(level) == one.levels.contains(level));
    assert(other.levels.to_set().contains(level) == other.levels.contains(level));
}

/// A new configuration holds the endpoint without slashes at its end, the
/// service and the token as they were given, and rules that depend on none of
/// them. It goes without TLS exactly where its endpoint starts with `http://`.
pub proof fn new_configuration_holds_what_was_given(
    endpoint: Seq<char>,
    service: Seq<char>,
    token: Option<Seq<char>>,
    other_endpoint: Seq<char>,
    other_service: Seq<char>,
    other_token: Option<Seq<char>>,
)
    ensures
        ({
            let made = config::config_for(endpoint, service, token);
            let other = config::config_for(other_endpoint, other_service, other_token);
            &&& made.service == service
            &&& made.token == token
            &&& made.insecure <==> "http://"@.is_prefix_of(made.endpoint)
            &&& made.endpoint.len() <= endpoint.len()
            &&& made.endpoint == endpoint.take(made.endpoint.len() as int)
            &&& forall|i: int|
                made.endpoint.len() <= i < endpoint.len() ==> #[trigger] endpoint[i] == '/'
            &&& made.endpoint.len() > 0 ==> made.endpoint.last() != '/'
            &&& made.sampling == other.sampling
            &&& made.protocol == "http"@
            &&& made.timeout_seconds == 5
            &&& !made.disable_http_error_reporting
        }),
{
    super::text::trimming_takes_the_whole_run(endpoint, '/');
}

/// The default share is the rate that lies closest to one in ten.
pub proof fn default_share_is_one_in_ten()
    ensures
        ({
            let share = config::default_sampling().traces.percentage;
            let step = rate::size_units(share.size_bits() + 1) - rate::size_units(
                share.size_bits(),
            );
            &&& !share.not_a_number()
            &&& -5 * step <= 10 * share.units() - rate::one_units() <= 5 * step
        }),
{
    let share = config::default_sampling().traces.percentage;
    let m = share.size_bits();
    sizes_step_by_their_exponent(m);
    assert(m / 0x10_0000_0000_0000 == 1019);
    assert(m % 0x10_0000_0000_0000 == 0x9_9999_9999_999a);
    let p = pow2(1018);
    lemma_pow2_adds(56, 1018);
    lemma2_to64_rest();
    lemma_pow2_pos(1018);
    assert(share.units() == 0x19_9999_9999_999a * p);
    assert(10 * (0x19_9999_9999_999a * p) == 0x100_0000_0000_0000 * p + 4 * p)
        by (nonlinear_arith);
}

/// Under the default rules the routes of probes leave no trace but for errors,
/// and on all other routes the default share decides.
pub proof fn default_rules_pass_over_probes(i: int, route: Seq<char>, draw: u64)
    requires
        0 <= i < config::probe_routes().len(),
    ensures
        ({
            let sampling = config::default_sampling();
            let probe = config::probe_routes()[i];
            &&& !config::trace_kept(sampling.traces, probe, false, draw)
            &&& config::trace_kept(sampling.traces, probe, true, draw)
            &&& !config::log_kept(sampling.logs, probe, LogLevel::Error, 499, true)
            &&& config::log_kept(sampling.logs, probe, LogLevel::Debug, 500, false)
            &&& fits_none(route, config::probe_routes()) ==> config::trace_kept(
                sampling.traces,
                route,
                false,
                draw,
            ) == (rate::draw_units(draw) < sampling.traces.percentage.units())
        }),
{
    let sampling = config::default_sampling();
    let probe = config::probe_routes()[i];
    glob::pattern_matches_itself(probe);
    never_sampled_pattern_wins(sampling.traces, i, probe, false, draw);
    never_sampled_pattern_wins(sampling.traces, i, probe, true, draw);
    never_captured_pattern_wins(sampling.logs, i, probe, LogLevel::Error, 499, true);
    never_captured_pattern_wins(sampling.logs, i, probe, LogLevel::Debug, 500, false);
    let share = sampling.traces.percentage;
    rate::size_compares_with_one_as_its_bits(share.size_bits());
    sizes_step_by_their_exponent(0);
    rate::size_grows_with_its_bits(0, share.size_bits());
    if fits_none(route, config::probe_routes()) {
        share_decides_in_the_end(sampling.traces, route, false, draw);
    }
}

} // verus!
