//! Laws of submitted errors.

use vstd::prelude::*;
use vstd::utf8::*;

use crate::config::ConfigView;
use crate::json;
use crate::json::Json;
use crate::submission;
use crate::submission::{AppError, Submission};
use crate::text;

verus! {

/// Errors are submitted under the endpoint, without slashes at its end and
/// without the path of one signal before them.
pub proof fn submissions_go_below_the_endpoint(endpoint: Seq<char>)
    ensures
        ({
            let base = submission::submit_base(endpoint);
            let whole = text::trim_end_of(endpoint, '/');
            &&& "/v1/traces"@.is_suffix_of(whole) ==> whole == base + "/v1/traces"@
            &&& "/v1/logs"@.is_suffix_of(whole) ==> whole == base + "/v1/logs"@
            &&& !"/v1/traces"@.is_suffix_of(whole) && !"/v1/logs"@.is_suffix_of(whole) ==> whole
                == base
            &&& submission::submit_base(endpoint.push('/')) == base
        }),
{
    reveal_strlit("/v1/traces");
    reveal_strlit("/v1/logs");
    let base = submission::submit_base(endpoint);
    let whole = text::trim_end_of(endpoint, '/');
    let n = whole.len() as int;
    assert(endpoint.push('/').drop_last() =~= endpoint);
    if "/v1/traces"@.is_suffix_of(whole) {
        assert(whole =~= base + "/v1/traces"@);
        assert(whole.subrange(n - 10, n)[8] == whole[n - 2]);
        assert("/v1/traces"@[8] == 'e');
    }
    if "/v1/logs"@.is_suffix_of(whole) {
        assert(whole.subrange(n - 8, n)[6] == whole[n - 2]);
        assert("/v1/logs"@[6] == 'g');
        assert(whole =~= base + "/v1/logs"@);
    }
}

/// A request body of at most 2000 bytes is submitted as it is. Of a longer one
/// the longest start of at most 2000 bytes is, with three dots behind it.
pub proof fn long_bodies_are_cut_as_late_as_possible(body: Seq<char>)
    ensures
        ({
            let sent = submission::submitted_body(body);
            &&& encode_utf8(body).len() <= 2000 ==> sent == body
            &&& encode_utf8(body).len() > 2000 ==> {
                let k = sent.len() - 3;
                &&& 0 <= k < body.len()
                &&& sent == body.take(k) + "..."@
                &&& encode_utf8(body.take(k)).len() <= 2000
                &&& encode_utf8(body.take(k + 1)).len() > 2000
            }
        }),
{
    reveal_strlit("...");
    let sent = submission::submitted_body(body);
    if encode_utf8(body).len() > 2000 {
        text::clipped_is_the_longest_fit(body, 2000);
        let start = text::clipped(body, 2000);
        let k = start.len() as int;
        assert(start =~= body.take(k));
        if k == body.len() {
            assert(start =~= body);
        }
        assert(encode_utf8(body.take(k + 1)).len() > 2000);
        assert(sent.len() == k + 3);
    }
}

/// A token goes with a submission unless it is empty.
pub proof fn token_goes_along_unless_empty(token: Seq<char>)
    ensures
        submission::bearer_token(None) is None,
        token.len() == 0 ==> submission::bearer_token(Some(token)) is None,
        token.len() > 0 ==> submission::bearer_token(Some(token)) == Some(token),
{
}

/// The object that is submitted has a member for each thing that is known of the
/// error, and no other.
pub proof fn payload_tells_all_that_is_known(
    e: AppError,
    service: Seq<char>,
    timestamp: Seq<char>,
    key: Seq<char>,
)
    ensures
        ({
            let m = e.members(service, timestamp);
            &&& m.contains_key("name"@) && m["name"@] == Json::Text(e.name)
            &&& m.contains_key("message"@) && m["message"@] == Json::Text(e.message)
            &&& m.contains_key("file"@) && m["file"@] == Json::Text(e.file)
            &&& m.contains_key("line"@) && m["line"@] == Json::Integer(e.line as int)
            &&& m.contains_key("timestamp"@) && m["timestamp"@] == Json::Text(timestamp)
            &&& m.contains_key("service"@) && m["service"@] == Json::Text(service)
            &&& m.contains_key("http_method"@) <==> e.method is Some
            &&& e.method matches Some(method) ==> m["http_method"@] == Json::Text(method)
            &&& m.contains_key("http_url"@) <==> e.url is Some
            &&& e.url matches Some(url) ==> m["http_url"@] == Json::Text(url)
            &&& m.contains_key("http_body"@) <==> e.request_body is Some
            &&& e.request_body matches Some(body) ==> m["http_body"@] == Json::Text(
                submission::submitted_body(body),
            )
            &&& m.contains_key(key) ==> key == "name"@ || key == "message"@ || key == "file"@
                || key == "line"@ || key == "timestamp"@ || key == "service"@ || key
                == "http_method"@ || key == "http_url"@ || key == "http_body"@
        }),
{
    reveal_strlit("name");
    reveal_strlit("message");
    reveal_strlit("file");
    reveal_strlit("line");
    reveal_strlit("timestamp");
    reveal_strlit("service");
    reveal_strlit("http_method");
    reveal_strlit("http_url");
    reveal_strlit("http_body");
    assert("name"@[0] == 'n');
    assert("message"@[0] == 'm');
    assert("file"@[0] == 'f');
    assert("line"@[0] == 'l');
    assert("timestamp"@[0] == 't');
    assert("service"@[0] == 's');
    assert("http_method"@[0] == 'h' && "http_method"@[5] == 'm');
    assert("http_url"@[0] == 'h' && "http_url"@[5] == 'u');
    assert("http_body"@[0] == 'h' && "http_body"@[5] == 'b');
}

/// The arguments of a submission are taken over as they are.
pub proof fn submission_takes_its_arguments_over(
    name: &str,
    message: &str,
    file: &str,
    line: i32,
    method: &str,
    url: &str,
    request_body: &str,
)
    ensures
        ({
            let e = submission::app_error(
                name,
                message,
                file,
                line,
                Some(method),
                Some(url),
                Some(request_body),
            );
            &&& e.name == name@
            &&& e.message == message@
            &&& e.file == file@
            &&& e.line == line
            &&& e.method == Some(method@)
            &&& e.url == Some(url@)
            &&& e.request_body == Some(request_body@)
        }),
        ({
            let e = submission::app_error(name, message, file, line, None, None, None);
            e.method is None && e.url is None && e.request_body is None && e.name == name@
                && e.message == message@ && e.file == file@ && e.line == line
        }),
{
}

/// A submission goes to the errors below the endpoint, with the token of the
/// configuration, within five seconds, and carries the name, message, place and
/// service of the error.
pub proof fn submission_carries_the_error(
    sent: Submission,
    config: ConfigView,
    e: AppError,
    timestamp: Seq<char>,
)
    requires
        submission::submits(sent, config, e, timestamp),
    ensures
        sent.url@ == submission::submit_base(config.endpoint) + "/api/v1/errors"@,
        sent.timeout_seconds == 5,
        config.token is None ==> sent.bearer is None,
        config.token matches Some(token) ==> (if token.len() > 0 {
            text::opt_text(sent.bearer) == Some(token)
        } else {
            sent.bearer is None
        }),
        json::text_member(json::json_of(sent.payload), "name"@) == Some(e.name),
        json::text_member(json::json_of(sent.payload), "message"@) == Some(e.message),
        json::text_member(json::json_of(sent.payload), "file"@) == Some(e.file),
        json::text_member(json::json_of(sent.payload), "service"@) == Some(config.service),
        json::text_member(json::json_of(sent.payload), "timestamp"@) == Some(timestamp),
        json::text_member(json::json_of(sent.payload), "http_method"@) == e.method,
        json::text_member(json::json_of(sent.payload), "http_url"@) == e.url,
        json::json_of(sent.payload)->Object_0["line"@] == Json::Integer(e.line as int),
{
    payload_tells_all_that_is_known(e, config.service, timestamp, "line"@);
}

} // verus!
