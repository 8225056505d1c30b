//! Configuration from environment variables.

use vstd::prelude::*;
use vstd::string::*;

use crate::config;
use crate::config::{new_config, Config, ConfigView};
use crate::level;
use crate::level::LogLevel;
use crate::rate::Rate;
use crate::text;

verus! {

/// The environment variables of a process, each with its value.
#[derive(Debug)]
pub struct Environment {
    pub vars: Vec<(String, String)>,
}

/// What a number parser made of the text in `MIDDLE_MONITOR_TRACES_SAMPLING`.
#[derive(Debug)]
pub struct RateReading {
    /// The number, where the text is one.
    pub value: Option<Rate>,
    /// The number as messages show it.
    pub shown: String,
}

/// The value of the variable `name`.
pub open spec fn lookup(vars: Seq<(String, String)>, name: Seq<char>) -> Option<Seq<char>>
    decreases vars.len(),
{
    if vars.len() == 0 {
        None
    } else if vars[0].0@ == name {
        Some(vars[0].1@)
    } else {
        lookup(vars.skip(1), name)
    }
}

/// The value of the first of two variables that is set, or else `default`.
pub open spec fn first_set(
    vars: Seq<(String, String)>,
    first: Seq<char>,
    second: Seq<char>,
    default: Seq<char>,
) -> Seq<char> {
    match lookup(vars, first) {
        Some(value) => value,
        None => match lookup(vars, second) {
            Some(value) => value,
            None => default,
        },
    }
}

/// The token in a header with the lower-case name `name`.
pub open spec fn token_in_header(name: Seq<char>, value: Seq<char>) -> Option<Seq<char>> {
    if name == "authorization"@ {
        Some(text::strip_prefixes(value, "Bearer "@))
    } else {
        None
    }
}

/// The token in one `name=value` entry.
pub open spec fn token_in_entry(entry: Seq<char>) -> Option<Seq<char>> {
    let at = text::first_position(entry, '=');
    if at < entry.len() {
        token_in_header(text::lowercase(entry.take(at)), entry.skip(at + 1))
    } else {
        None
    }
}

/// The token in the first entry that holds one.
pub open spec fn token_in_entries(entries: Seq<Seq<char>>) -> Option<Seq<char>>
    decreases entries.len(),
{
    if entries.len() == 0 {
        None
    } else {
        match token_in_entry(text::trimmed(entries[0])) {
            Some(token) => Some(token),
            None => token_in_entries(entries.skip(1)),
        }
    }
}

/// The token that the environment holds: a variable of its own, or an
/// `authorization` entry among the OTLP headers.
pub open spec fn token_of(vars: Seq<(String, String)>) -> Option<Seq<char>> {
    match lookup(vars, "MIDDLE_MONITOR_TOKEN"@) {
        Some(token) => Some(token),
        None => match lookup(vars, "OTEL_EXPORTER_OTLP_HEADERS"@) {
            Some(headers) => token_in_entries(text::split_on(headers, ',')),
            None => None,
        },
    }
}

/// The levels that a list of names stands for, or the first name that stands for none.
pub open spec fn levels_of(names: Seq<Seq<char>>) -> Result<Seq<LogLevel>, Seq<char>>
    decreases names.len(),
{
    if names.len() == 0 {
        Ok(seq![])
    } else {
        match levels_of(names.drop_last()) {
            Err(name) => Err(name),
            Ok(levels) => match level::level_read(text::trimmed(names.last())) {
                Some(level) => Ok(levels.push(level)),
                None => Err(text::trimmed(names.last())),
            },
        }
    }
}

/// The configuration before sampling is read.
pub open spec fn base_config(vars: Seq<(String, String)>) -> ConfigView {
    ConfigView {
        protocol: first_set(
            vars,
            "MIDDLE_MONITOR_PROTOCOL"@,
            "OTEL_EXPORTER_OTLP_PROTOCOL"@,
            "http"@,
        ),
        ..config::config_for(
            first_set(
                vars,
                "MIDDLE_MONITOR_API_URL"@,
                "OTEL_EXPORTER_OTLP_ENDPOINT"@,
                "https://api.middlemonitor.io"@,
            ),
            first_set(vars, "MIDDLE_MONITOR_SERVICE"@, "OTEL_SERVICE_NAME"@, "unknown"@),
            token_of(vars),
        )
    }
}

/// The configuration with the share of traces that the environment sets.
pub open spec fn with_traces(
    config: ConfigView,
    vars: Seq<(String, String)>,
    value: Option<Rate>,
    shown: Seq<char>,
) -> Result<ConfigView, Seq<char>> {
    match lookup(vars, "MIDDLE_MONITOR_TRACES_SAMPLING"@) {
        None => Ok(config),
        Some(written) => match value {
            None => Err("invalid MIDDLE_MONITOR_TRACES_SAMPLING: "@ + written),
            Some(rate) => if rate.in_range() {
                Ok(
                    ConfigView {
                        sampling: config::SamplingView {
                            traces: config::TracesView {
                                percentage: rate,
                                ..config.sampling.traces
                            },
                            ..config.sampling
                        },
                        ..config
                    },
                )
            } else {
                Err("MIDDLE_MONITOR_TRACES_SAMPLING must be between -1 and 1, got "@ + shown)
            },
        },
    }
}

/// The configuration with the log levels that the environment sets.
pub open spec fn with_levels(config: ConfigView, vars: Seq<(String, String)>) -> Result<
    ConfigView,
    Seq<char>,
> {
    match lookup(vars, "MIDDLE_MONITOR_LOGS_LEVELS"@) {
        None => Ok(config),
        Some(names) => match levels_of(text::split_on(names, ',')) {
            Err(name) => Err("invalid log level in MIDDLE_MONITOR_LOGS_LEVELS: "@ + name),
            Ok(levels) => Ok(
                ConfigView {
                    sampling: config::SamplingView {
                        logs: config::LogsView { levels, ..config.sampling.logs },
                        ..config.sampling
                    },
                    ..config
                },
            ),
        },
    }
}

/// The configuration with the lowest status that the environment sets.
pub open spec fn with_min_status(config: ConfigView, vars: Seq<(String, String)>) -> Result<
    ConfigView,
    Seq<char>,
> {
    match lookup(vars, "MIDDLE_MONITOR_LOGS_MIN_HTTP_STATUS"@) {
        None => Ok(config),
        Some(written) => match text::parsed_unsigned(written, u16::MAX as nat) {
            None => Err("invalid MIDDLE_MONITOR_LOGS_MIN_HTTP_STATUS: "@ + written),
            Some(status) => Ok(
                ConfigView {
                    sampling: config::SamplingView {
                        logs: config::LogsView {
                            min_http_status: status as u16,
                            ..config.sampling.logs
                        },
                        ..config.sampling
                    },
                    ..config
                },
            ),
        },
    }
}

/// The configuration that the environment sets, or what is wrong with it.
pub open spec fn env_config(
    vars: Seq<(String, String)>,
    value: Option<Rate>,
    shown: Seq<char>,
) -> Result<ConfigView, Seq<char>> {
    match with_traces(base_config(vars), vars, value, shown) {
        Err(e) => Err(e),
        Ok(config) => match with_levels(config, vars) {
            Err(e) => Err(e),
            Ok(config) => with_min_status(config, vars),
        },
    }
}

impl Environment {
    /// The value of the variable `name`.
    pub fn get(&self, name: &str) -> (value: Option<&String>)
        ensures
            match value {
                Some(v) => lookup(self.vars@, name@) == Some(v@),
                None => lookup(self.vars@, name@) is None,
            },
    {
        let mut i: usize = 0;
        assert(self.vars@.skip(0) =~= self.vars@);
        while i < self.vars.len()
            invariant
                i <= self.vars.len(),
                lookup(self.vars@, name@) == lookup(self.vars@.skip(i as int), name@),
            decreases self.vars.len() - i,
        {
            assert(self.vars@.skip(i as int).skip(1) =~= self.vars@.skip(i + 1));
            if text::same(self.vars[i].0.as_str(), name) {
                return Some(&self.vars[i].1);
            }
            i = i + 1;
        }
        None
    }

    /// The value of the first of two variables that is set, or else `default`.
    fn get_first(&self, first: &str, second: &str, default: &str) -> (value: String)
        ensures
            value@ == first_set(self.vars@, first@, second@, default@),
    {
        match self.get(first) {
            Some(value) => value.clone(),
            None => match self.get(second) {
                Some(value) => value.clone(),
                None => default.to_string(),
            },
        }
    }
}

/// The token in a header, whose name is given in lower case.
pub fn header_token(name: &str, value: &str) -> (token: Option<String>)
    ensures
        text::opt_text(token) == token_in_header(name@, value@),
{
    if text::same(name, "authorization") {
        Some(text::trim_start_text(value, "Bearer ").to_string())
    } else {
        None
    }
}

/// The token among headers written as `name=value`, with commas between them.
pub fn token_from_headers(headers: &str) -> (token: Option<String>)
    ensures
        text::opt_text(token) == token_in_entries(text::split_on(headers@, ',')),
{
    let entries: Vec<&str> = text::split(headers, ',');
    let ghost all = text::split_on(headers@, ',');
    let mut i: usize = 0;
    assert(all.skip(0) =~= all);
    while i < entries.len()
        invariant
            i <= entries.len(),
            all == text::split_on(headers@, ','),
            all == entries@.map_values(|p: &str| p@),
            token_in_entries(all) == token_in_entries(all.skip(i as int)),
        decreases entries.len() - i,
    {
        assert(all.skip(i as int).skip(1) =~= all.skip(i + 1));
        assert(all[i as int] == entries[i as int]@);
        let entry: &str = text::trim(entries[i]);
        if let Some((name, value)) = text::split_once(entry, '=') {
            let lower: String = text::to_lowercase(name);
            let token: Option<String> = header_token(lower.as_str(), value);
            if token.is_some() {
                return token;
            }
        }
        i = i + 1;
    }
    None
}

/// The token that the environment holds.
fn token_from_env(env: &Environment) -> (token: Option<String>)
    ensures
        text::opt_text(token) == token_of(env.vars@),
{
    match env.get("MIDDLE_MONITOR_TOKEN") {
        Some(token) => Some(token.clone()),
        None => match env.get("OTEL_EXPORTER_OTLP_HEADERS") {
            Some(headers) => token_from_headers(headers.as_str()),
            None => None,
        },
    }
}

/// The levels that a list of names with commas between them stands for, or the
/// first name that stands for none.
pub fn levels_from_names(names: &str) -> (levels: Result<Vec<LogLevel>, String>)
    ensures
        match levels {
            Ok(levels) => levels_of(text::split_on(names@, ',')) == Ok::<_, Seq<char>>(levels@),
            Err(name) => levels_of(text::split_on(names@, ',')) == Err::<Seq<LogLevel>, _>(name@),
        },
{
    let pieces: Vec<&str> = text::split(names, ',');
    let ghost all = text::split_on(names@, ',');
    let mut levels: Vec<LogLevel> = Vec::new();
    let mut i: usize = 0;
    while i < pieces.len()
        invariant
            i <= pieces.len(),
            all == text::split_on(names@, ','),
            all == pieces@.map_values(|p: &str| p@),
            levels_of(all.take(i as int)) == Ok::<_, Seq<char>>(levels@),
        decreases pieces.len() - i,
    {
        assert(all.take(i + 1).drop_last() =~= all.take(i as int));
        assert(all[i as int] == pieces[i as int]@);
        let name: &str = text::trim(pieces[i]);
        match LogLevel::from_str(name) {
            Some(level) => {
                levels.push(level);
            },
            None => {
                proof {
                    lemma_first_bad_name_stays(all, i + 1);
                }
                return Err(name.to_string());
            },
        }
        i = i + 1;
    }
    assert(all.take(i as int) =~= all);
    Ok(levels)
}

proof fn lemma_first_bad_name_stays(names: Seq<Seq<char>>, k: int)
    requires
        0 <= k <= names.len(),
        levels_of(names.take(k)) is Err,
    ensures
        levels_of(names) == levels_of(names.take(k)),
    decreases names.len(),
{
    if k == names.len() {
        assert(names.take(k) =~= names);
    } else {
        assert(names.drop_last().take(k) =~= names.take(k));
        lemma_first_bad_name_stays(names.drop_last(), k);
    }
}

/// The configuration that the environment sets. `reading` tells what the text
/// in `MIDDLE_MONITOR_TRACES_SAMPLING` is as a number; it does not matter where
/// that variable is not set.
pub fn config_from_env(env: &Environment, reading: &RateReading) -> (config: Result<Config, String>)
    ensures
        match config {
            Ok(config) => env_config(env.vars@, reading.value, reading.shown@) == Ok::<
                _,
                Seq<char>,
            >(config@),
            Err(message) => env_config(env.vars@, reading.value, reading.shown@) == Err::<
                ConfigView,
                _,
            >(message@),
        },
{
    let endpoint: String = env.get_first(
        "MIDDLE_MONITOR_API_URL",
        "OTEL_EXPORTER_OTLP_ENDPOINT",
        "https://api.middlemonitor.io",
    );
    let service: String = env.get_first("MIDDLE_MONITOR_SERVICE", "OTEL_SERVICE_NAME", "unknown");
    let token: Option<String> = token_from_env(env);
    let protocol: String = env.get_first(
        "MIDDLE_MONITOR_PROTOCOL",
        "OTEL_EXPORTER_OTLP_PROTOCOL",
        "http",
    );
    let mut config: Config = new_config(endpoint, service, token);
    config.protocol = protocol;

    if let Some(written) = env.get("MIDDLE_MONITOR_TRACES_SAMPLING") {
        match reading.value {
            Some(rate) => {
                if !rate.is_in_range() {
                    return Err(
                        "MIDDLE_MONITOR_TRACES_SAMPLING must be between -1 and 1, got ".to_string().concat(
                            reading.shown.as_str(),
                        ),
                    );
                }
                config.sampling.traces.percentage = rate;
            },
            None => {
                return Err(
                    "invalid MIDDLE_MONITOR_TRACES_SAMPLING: ".to_string().concat(written.as_str()),
                );
            },
        }
    }
    if let Some(names) = env.get("MIDDLE_MONITOR_LOGS_LEVELS") {
        match levels_from_names(names.as_str()) {
            Ok(levels) => {
                config.sampling.logs.levels = levels;
            },
            Err(name) => {
                return Err(
                    "invalid log level in MIDDLE_MONITOR_LOGS_LEVELS: ".to_string().concat(
                        name.as_str(),
                    ),
                );
            },
        }
    }
    if let Some(written) = env.get("MIDDLE_MONITOR_LOGS_MIN_HTTP_STATUS") {
        match text::parse_unsigned(written.as_str(), 65535) {
            Some(status) => {
                config.sampling.logs.min_http_status = status as u16;
            },
            None => {
                return Err(
                    "invalid MIDDLE_MONITOR_LOGS_MIN_HTTP_STATUS: ".to_string().concat(
                        written.as_str(),
                    ),
                );
            },
        }
    }
    Ok(config)
}

/// Where `MIDDLE_MONITOR_API_URL` is set, it is the endpoint, but for slashes
/// at its end.
pub proof fn api_url_sets_the_endpoint(
    vars: Seq<(String, String)>,
    value: Option<Rate>,
    shown: Seq<char>,
    url: Seq<char>,
)
    requires
        lookup(vars, "MIDDLE_MONITOR_API_URL"@) == Some(url),
    ensures
        env_config(vars, value, shown) matches Ok(config) ==> config.endpoint == text::trim_end_of(
            url,
            '/',
        ),
{
}

/// A variable of the SDK's own overrides the OpenTelemetry variable for the
/// same setting, whatever that holds.
pub proof fn own_variables_come_first(
    vars: Seq<(String, String)>,
    value: Option<Rate>,
    shown: Seq<char>,
    setting: Seq<char>,
)
    ensures
        env_config(vars, value, shown) matches Ok(config) ==> {
            &&& lookup(vars, "MIDDLE_MONITOR_SERVICE"@) == Some(setting) ==> config.service
                == setting
            &&& lookup(vars, "MIDDLE_MONITOR_TOKEN"@) == Some(setting) ==> config.token == Some(
                setting,
            )
            &&& lookup(vars, "MIDDLE_MONITOR_PROTOCOL"@) == Some(setting) ==> config.protocol
                == setting
        },
{
}

/// An environment without variables sets the default configuration.
pub proof fn empty_environment_means_the_defaults(value: Option<Rate>, shown: Seq<char>)
    ensures
        env_config(Seq::empty(), value, shown) == Ok::<_, Seq<char>>(
            config::config_for("https://api.middlemonitor.io"@, "unknown"@, None),
        ),
{
}

/// The share of traces under every configuration that the environment sets is a
/// number from -1 to 1.
pub proof fn share_from_env_is_in_range(
    vars: Seq<(String, String)>,
    value: Option<Rate>,
    shown: Seq<char>,
)
    ensures
        env_config(vars, value, shown) matches Ok(config)
            ==> config.sampling.traces.percentage.in_range(),
{
    let default_rate = Rate { bits: crate::rate::DEFAULT_BITS };
    crate::rate::size_compares_with_one_as_its_bits(default_rate.size_bits());
}

/// At least one log level comes out of every list of names that is accepted.
pub proof fn accepted_level_list_is_not_empty(names: Seq<char>)
    ensures
        levels_of(text::split_on(names, ',')) matches Ok(levels) ==> levels.len() > 0,
{
    text::split_has_a_piece(names, ',');
    lemma_one_level_per_name(text::split_on(names, ','));
}

proof fn lemma_one_level_per_name(names: Seq<Seq<char>>)
    ensures
        levels_of(names) matches Ok(levels) ==> levels.len() == names.len(),
    decreases names.len(),
{
    if names.len() > 0 {
        lemma_one_level_per_name(names.drop_last());
    }
}

} // verus!
