//! Laws of log levels and of the configuration that the environment sets.

use vstd::prelude::*;

use crate::config;
use crate::env;
use crate::level;
use crate::level::LogLevel;
use crate::rate::Rate;
use crate::text;

verus! {

/// The first of two values that is there, or else the third.
pub open spec fn first_of(
    first: Option<Seq<char>>,
    second: Option<Seq<char>>,
    third: Seq<char>,
) -> Seq<char> {
    if first is Some {
        first->0
    } else if second is Some {
        second->0
    } else {
        third
    }
}

/// A text is read as a level exactly where it is the name of that level in any
/// case, or `warning` in any case for the level of warnings.
pub proof fn only_names_are_read_as_levels(name: Seq<char>, read: LogLevel)
    ensures
        level::level_read(name) == Some(read) <==> {
            ||| text::uppercase(name) == read.name()
            ||| read is Warn && text::uppercase(name) == "WARNING"@
        },
        level::level_named(name) == Some(read) <==> {
            ||| name == read.name()
            ||| read is Warn && name == "WARNING"@
        },
{
    reveal_strlit("DEBUG");
    reveal_strlit("INFO");
    reveal_strlit("WARN");
    reveal_strlit("WARNING");
    reveal_strlit("ERROR");
    reveal_strlit("FATAL");
    reveal_strlit("PANIC");
    assert("DEBUG"@[0] == 'D');
    assert("INFO"@[0] == 'I');
    assert("WARN"@[0] == 'W');
    assert("WARNING"@[0] == 'W');
    assert("ERROR"@[0] == 'E');
    assert("FATAL"@[0] == 'F');
    assert("PANIC"@[0] == 'P');
}

/// Different levels have different names.
pub proof fn level_names_differ(one: LogLevel, other: LogLevel)
    requires
        one.name() == other.name(),
    ensures
        one == other,
{
    one.name_reads_back();
    other.name_reads_back();
}

/// The value of a variable is that of the first pair with its name.
pub proof fn first_pair_gives_the_value(vars: Seq<(String, String)>, name: Seq<char>)
    ensures
        match env::lookup(vars, name) {
            Some(value) => exists|i: int|
                0 <= i < vars.len() && #[trigger] vars[i].0@ == name && vars[i].1@ == value
                    && forall|j: int| 0 <= j < i ==> (#[trigger] vars[j]).0@ != name,
            None => forall|i: int| 0 <= i < vars.len() ==> (#[trigger] vars[i]).0@ != name,
        },
    decreases vars.len(),
{
    if vars.len() > 0 {
        if vars[0].0@ == name {
            assert(vars[0].0@ == name && vars[0].1@ == env::lookup(vars, name)->0);
        } else {
            let rest = vars.skip(1);
            first_pair_gives_the_value(rest, name);
            match env::lookup(rest, name) {
                Some(value) => {
                    let i = choose|i: int|
                        0 <= i < rest.len() && #[trigger] rest[i].0@ == name && rest[i].1@ == value
                            && forall|j: int| 0 <= j < i ==> (#[trigger] rest[j]).0@ != name;
                    assert(vars[i + 1].0@ == name && vars[i + 1].1@ == value);
                    assert forall|j: int| 0 <= j < i + 1 implies (#[trigger] vars[j]).0@
                        != name by {
                        if j > 0 {
                            assert(rest[j - 1].0@ != name);
                        }
                    }
                },
                None => {
                    assert forall|i: int| 0 <= i < vars.len() implies (#[trigger] vars[i]).0@
                        != name by {
                        if i > 0 {
                            assert(rest[i - 1].0@ != name);
                        }
                    }
                },
            }
        }
    }
}

/// A header with the lower-case name `authorization` gives its value, without
/// `Bearer ` in front of it; a header with another name gives nothing.
pub proof fn authorization_gives_its_value(name: Seq<char>, value: Seq<char>)
    ensures
        name != "authorization"@ ==> env::token_in_header(name, value) is None,
        !"Bearer "@.is_prefix_of(value) ==> env::token_in_header("authorization"@, value) == Some(
            value,
        ),
        env::token_in_header("authorization"@, "Bearer "@ + value) == env::token_in_header(
            "authorization"@,
            value,
        ),
{
    reveal_strlit("Bearer ");
    super::text::stripping_takes_every_copy_in_front(value, "Bearer "@);
}

/// An entry is split at its first equals sign into name and value, and the case
/// of the name does not matter; an entry without an equals sign gives nothing.
pub proof fn entry_is_split_at_the_first_equals_sign(name: Seq<char>, value: Seq<char>)
    requires
        super::text::free_of(name, '='),
    ensures
        env::token_in_entry(name.push('=') + value) == env::token_in_header(
            text::lowercase(name),
            value,
        ),
        env::token_in_entry(name) is None,
{
    let entry = name.push('=') + value;
    super::text::first_position_is_the_first(entry, '=');
    super::text::first_position_is_the_first(name, '=');
    let at = text::first_position(entry, '=');
    assert(entry[name.len() as int] == '=');
    if at < name.len() {
        assert(entry[at] == name[at]);
    }
    assert(at == name.len());
    assert(entry.take(at) =~= name);
    assert(entry.skip(at + 1) =~= value);
    let end = text::first_position(name, '=');
    if end < name.len() {
        assert(name[end] == '=');
    }
}

/// The token among entries is that of the first one that holds a token, with the
/// white space around it left out of account.
pub proof fn first_entry_with_a_token_counts(entries: Seq<Seq<char>>)
    ensures
        match env::token_in_entries(entries) {
            Some(token) => exists|i: int|
                0 <= i < entries.len() && env::token_in_entry(
                    text::trimmed(#[trigger] entries[i]),
                ) == Some(token) && forall|j: int|
                    0 <= j < i ==> env::token_in_entry(
                        text::trimmed(#[trigger] entries[j]),
                    ) is None,
            None => forall|i: int|
                0 <= i < entries.len() ==> env::token_in_entry(
                    text::trimmed(#[trigger] entries[i]),
                ) is None,
        },
    decreases entries.len(),
{
    if entries.len() > 0 && env::token_in_entry(text::trimmed(entries[0])) is None {
        let rest = entries.skip(1);
        first_entry_with_a_token_counts(rest);
        match env::token_in_entries(rest) {
            Some(token) => {
                let i = choose|i: int|
                    0 <= i < rest.len() && env::token_in_entry(
                        text::trimmed(#[trigger] rest[i]),
                    ) == Some(token) && forall|j: int|
                        0 <= j < i ==> env::token_in_entry(
                            text::trimmed(#[trigger] rest[j]),
                        ) is None;
                assert(entries[i + 1] == rest[i]);
                assert forall|j: int| 0 <= j < i + 1 implies env::token_in_entry(
                    text::trimmed(#[trigger] entries[j]),
                ) is None by {
                    if j > 0 {
                        assert(rest[j - 1] == entries[j]);
                    }
                }
            },
            None => {
                assert forall|i: int| 0 <= i < entries.len() implies env::token_in_entry(
                    text::trimmed(#[trigger] entries[i]),
                ) is None by {
                    if i > 0 {
                        assert(rest[i - 1] == entries[i]);
                    }
                }
            },
        }
    }
}

/// Names are read as levels one by one, in their order; the first that is none
/// is the one that is told.
pub proof fn levels_are_read_one_by_one(names: Seq<Seq<char>>)
    ensures
        match env::levels_of(names) {
            Ok(levels) => levels.len() == names.len() && forall|i: int|
                0 <= i < names.len() ==> level::level_read(text::trimmed(#[trigger] names[i]))
                    == Some(levels[i]),
            Err(name) => exists|i: int|
                0 <= i < names.len() && name == text::trimmed(#[trigger] names[i])
                    && level::level_read(name) is None && forall|j: int|
                    0 <= j < i ==> level::level_read(text::trimmed(#[trigger] names[j])) is Some,
        },
    decreases names.len(),
{
    if names.len() > 0 {
        let head = names.drop_last();
        let n = head.len() as int;
        levels_are_read_one_by_one(head);
        match env::levels_of(head) {
            Ok(levels) => {
                assert forall|i: int| 0 <= i < n implies level::level_read(
                    text::trimmed(#[trigger] names[i]),
                ) == Some(levels[i]) by {
                    assert(head[i] == names[i]);
                }
                assert(names[n] == names.last());
            },
            Err(name) => {
                let i = choose|i: int|
                    0 <= i < head.len() && name == text::trimmed(#[trigger] head[i])
                        && level::level_read(name) is None && forall|j: int|
                        0 <= j < i ==> level::level_read(
                            text::trimmed(#[trigger] head[j]),
                        ) is Some;
                assert(names[i] == head[i]);
                assert forall|j: int| 0 <= j < i implies level::level_read(
                    text::trimmed(#[trigger] names[j]),
                ) is Some by {
                    assert(head[j] == names[j]);
                }
            },
        }
    }
}

/// Each setting comes from its own variables, whatever the others hold, and is
/// the default one where they are not set.
pub proof fn each_setting_has_its_own_variables(
    vars: Seq<(String, String)>,
    value: Option<Rate>,
    shown: Seq<char>,
)
    requires
        env::env_config(vars, value, shown) is Ok,
    ensures
        ({
            let made = env::env_config(vars, value, shown)->Ok_0;
            let traces = made.sampling.traces;
            let logs = made.sampling.logs;
            let default_traces = config::default_sampling().traces;
            let default_logs = config::default_sampling().logs;
            &&& made.endpoint == text::trim_end_of(
                first_of(
                    env::lookup(vars, "MIDDLE_MONITOR_API_URL"@),
                    env::lookup(vars, "OTEL_EXPORTER_OTLP_ENDPOINT"@),
                    "https://api.middlemonitor.io"@,
                ),
                '/',
            )
            &&& made.insecure <==> "http://"@.is_prefix_of(made.endpoint)
            &&& made.service == first_of(
                env::lookup(vars, "MIDDLE_MONITOR_SERVICE"@),
                env::lookup(vars, "OTEL_SERVICE_NAME"@),
                "unknown"@,
            )
            &&& made.protocol == first_of(
                env::lookup(vars, "MIDDLE_MONITOR_PROTOCOL"@),
                env::lookup(vars, "OTEL_EXPORTER_OTLP_PROTOCOL"@),
                "http"@,
            )
            &&& match env::lookup(vars, "MIDDLE_MONITOR_TRACES_SAMPLING"@) {
                Some(_) => value == Some(traces.percentage),
                None => traces.percentage == default_traces.percentage,
            }
            &&& match env::lookup(vars, "MIDDLE_MONITOR_LOGS_LEVELS"@) {
                Some(names) => env::levels_of(text::split_on(names, ',')) == Ok::<_, Seq<char>>(
                    logs.levels,
                ),
                None => logs.levels == default_logs.levels,
            }
            &&& match env::lookup(vars, "MIDDLE_MONITOR_LOGS_MIN_HTTP_STATUS"@) {
                Some(written) => text::parsed_unsigned(written, 65535) == Some(
                    logs.min_http_status as nat,
                ),
                None => logs.min_http_status == default_logs.min_http_status,
            }
            &&& traces.always_sample_errors == default_traces.always_sample_errors
            &&& traces.always_sample_routes == default_traces.always_sample_routes
            &&& traces.never_sample_routes == default_traces.never_sample_routes
            &&& logs.capture_on_trace_error == default_logs.capture_on_trace_error
            &&& logs.always_capture_routes == default_logs.always_capture_routes
            &&& logs.never_capture_routes == default_logs.never_capture_routes
            &&& made.timeout_seconds == 5
            &&& !made.disable_http_error_reporting
        }),
{
}

/// The token is that of its own variable; without it, that of the OTLP headers;
/// without these, there is none.
pub proof fn token_has_its_own_variables(
    vars: Seq<(String, String)>,
    value: Option<Rate>,
    shown: Seq<char>,
)
    requires
        env::env_config(vars, value, shown) is Ok,
    ensures
        ({
            let token = env::env_config(vars, value, shown)->Ok_0.token;
            let own = env::lookup(vars, "MIDDLE_MONITOR_TOKEN"@);
            let headers = env::lookup(vars, "OTEL_EXPORTER_OTLP_HEADERS"@);
            &&& own is Some ==> token == own
            &&& own is None && headers is Some ==> token == env::token_in_entries(
                text::split_on(headers->0, ','),
            )
            &&& own is None && headers is None ==> token is None
        }),
{
}

/// Levels that the environment lists are the levels that are kept, in their
/// order, whatever the other variables hold.
pub proof fn listed_levels_are_kept(
    vars: Seq<(String, String)>,
    value: Option<Rate>,
    shown: Seq<char>,
    names: Seq<char>,
)
    requires
        env::env_config(vars, value, shown) is Ok,
        env::lookup(vars, "MIDDLE_MONITOR_LOGS_LEVELS"@) == Some(names),
    ensures
        ({
            let levels = env::env_config(vars, value, shown)->Ok_0.sampling.logs.levels;
            let pieces = text::split_on(names, ',');
            &&& levels.len() == pieces.len()
            &&& forall|i: int|
                0 <= i < pieces.len() ==> level::level_read(text::trimmed(#[trigger] pieces[i]))
                    == Some(levels[i])
        }),
{
    levels_are_read_one_by_one(text::split_on(names, ','));
}

/// Two environments that agree on the variables of a setting agree on the
/// setting, however much they differ otherwise.
pub proof fn other_variables_do_not_matter(
    vars: Seq<(String, String)>,
    others: Seq<(String, String)>,
    value: Option<Rate>,
    shown: Seq<char>,
    other_shown: Seq<char>,
)
    requires
        env::env_config(vars, value, shown) is Ok,
        env::env_config(others, value, other_shown) is Ok,
    ensures
        ({
            let a = env::env_config(vars, value, shown)->Ok_0;
            let b = env::env_config(others, value, other_shown)->Ok_0;
            let same = |name: Seq<char>| env::lookup(vars, name) == env::lookup(others, name);
            &&& same("MIDDLE_MONITOR_API_URL"@) && same("OTEL_EXPORTER_OTLP_ENDPOINT"@)
                ==> a.endpoint == b.endpoint && a.insecure == b.insecure
            &&& same("MIDDLE_MONITOR_SERVICE"@) && same("OTEL_SERVICE_NAME"@) ==> a.service
                == b.service
            &&& same("MIDDLE_MONITOR_TOKEN"@) && same("OTEL_EXPORTER_OTLP_HEADERS"@) ==> a.token
                == b.token
            &&& same("MIDDLE_MONITOR_PROTOCOL"@) && same("OTEL_EXPORTER_OTLP_PROTOCOL"@)
                ==> a.protocol == b.protocol
            &&& same("MIDDLE_MONITOR_TRACES_SAMPLING"@) ==> a.sampling.traces == b.sampling.traces
            &&& same("MIDDLE_MONITOR_LOGS_LEVELS"@) ==> a.sampling.logs.levels
                == b.sampling.logs.levels
            &&& same("MIDDLE_MONITOR_LOGS_MIN_HTTP_STATUS"@) ==> a.sampling.logs.min_http_status
                == b.sampling.logs.min_http_status
        }),
{
}

/// The environment sets a configuration exactly where nothing is wrong with the
/// three variables that can be wrong, and otherwise the first mistake is told.
pub proof fn first_mistake_is_told(
    vars: Seq<(String, String)>,
    value: Option<Rate>,
    shown: Seq<char>,
)
    ensures
        ({
            let made = env::env_config(vars, value, shown);
            let share = env::lookup(vars, "MIDDLE_MONITOR_TRACES_SAMPLING"@);
            let names = env::lookup(vars, "MIDDLE_MONITOR_LOGS_LEVELS"@);
            let status = env::lookup(vars, "MIDDLE_MONITOR_LOGS_MIN_HTTP_STATUS"@);
            let no_number = share is Some && value is None;
            let out = share is Some && value is Some && !value->0.in_range();
            let no_level = names is Some && env::levels_of(
                text::split_on(names->0, ','),
            ) is Err;
            let no_status = status is Some && text::parsed_unsigned(status->0, 65535) is None;
            &&& made is Ok <==> !no_number && !out && !no_level && !no_status
            &&& no_number ==> made->Err_0 == "invalid MIDDLE_MONITOR_TRACES_SAMPLING: "@ + share->0
            &&& out ==> made->Err_0
                == "MIDDLE_MONITOR_TRACES_SAMPLING must be between -1 and 1, got "@ + shown
            &&& !no_number && !out && no_level ==> made->Err_0
                == "invalid log level in MIDDLE_MONITOR_LOGS_LEVELS: "@ + env::levels_of(
                text::split_on(names->0, ','),
            )->Err_0
            &&& !no_number && !out && !no_level && no_status ==> made->Err_0
                == "invalid MIDDLE_MONITOR_LOGS_MIN_HTTP_STATUS: "@ + status->0
        }),
{
}

} // verus!
