//! Spans, log entries and the attributes that they carry, as plain values that
//! an exporter can send.

use vstd::prelude::*;

use crate::level::LogLevel;
use crate::text;

verus! {

/// The value of an attribute.
#[derive(Debug)]
pub enum AttributeValue {
    Text(String),
    Integer(i64),
    Flag(bool),
}

/// A named value on a span or a log entry.
#[derive(Debug)]
pub struct Attribute {
    pub key: String,
    pub value: AttributeValue,
}

/// How a span ended.
#[derive(Debug)]
pub enum SpanStatus {
    Succeeded,
    Failed(String),
}

/// Which side of a call a span is on.
#[derive(Debug, Clone, Copy, PartialEq, Eq, Structural)]
pub enum SpanKind {
    Internal,
    Server,
}

/// A finished span.
#[derive(Debug)]
pub struct Span {
    pub name: String,
    pub kind: SpanKind,
    pub attributes: Vec<Attribute>,
    pub status: SpanStatus,
}

/// The severities that log entries are sent with.
#[derive(Debug, Clone, Copy, PartialEq, Eq, Structural)]
pub enum Severity {
    Debug,
    Info,
    Warn,
    Error,
    Fatal,
}

/// A log entry.
#[derive(Debug)]
pub struct LogEntry {
    pub severity: Severity,
    pub severity_text: String,
    pub body: String,
    pub attributes: Vec<Attribute>,
}

/// What a request and its response tell about an error.
#[derive(Debug)]
pub struct HttpContext {
    pub method: Option<String>,
    pub url: Option<String>,
    pub status_code: Option<u16>,
    pub headers: Option<String>,
    pub body: Option<String>,
}

/// What an `AttributeValue` holds.
pub enum ValueView {
    Text(Seq<char>),
    Integer(int),
    Flag(bool),
}

/// What an `Attribute` holds.
pub struct AttributeView {
    pub key: Seq<char>,
    pub value: ValueView,
}

/// What a `SpanStatus` holds.
pub enum StatusView {
    Succeeded,
    Failed(Seq<char>),
}

/// What a `Span` holds.
pub struct SpanView {
    pub name: Seq<char>,
    pub kind: SpanKind,
    pub attributes: Seq<AttributeView>,
    pub status: StatusView,
}

/// What a `LogEntry` holds.
pub struct LogEntryView {
    pub severity: Severity,
    pub severity_text: Seq<char>,
    pub body: Seq<char>,
    pub attributes: Seq<AttributeView>,
}

/// What an `HttpContext` holds.
pub struct HttpView {
    pub method: Option<Seq<char>>,
    pub url: Option<Seq<char>>,
    pub status_code: Option<u16>,
    pub headers: Option<Seq<char>>,
    pub body: Option<Seq<char>>,
}

impl View for Attribute {
    type V = AttributeView;

    open spec fn view(&self) -> AttributeView {
        AttributeView {
            key: self.key@,
            value: match self.value {
                AttributeValue::Text(t) => ValueView::Text(t@),
                AttributeValue::Integer(n) => ValueView::Integer(n as int),
                AttributeValue::Flag(b) => ValueView::Flag(b),
            },
        }
    }
}

impl View for SpanStatus {
    type V = StatusView;

    open spec fn view(&self) -> StatusView {
        match *self {
            SpanStatus::Succeeded => StatusView::Succeeded,
            SpanStatus::Failed(message) => StatusView::Failed(message@),
        }
    }
}

impl View for Span {
    type V = SpanView;

    open spec fn view(&self) -> SpanView {
        SpanView {
            name: self.name@,
            kind: self.kind,
            attributes: attributes_of(self.attributes@),
            status: self.status@,
        }
    }
}

impl View for LogEntry {
    type V = LogEntryView;

    open spec fn view(&self) -> LogEntryView {
        LogEntryView {
            severity: self.severity,
            severity_text: self.severity_text@,
            body: self.body@,
            attributes: attributes_of(self.attributes@),
        }
    }
}

impl View for HttpContext {
    type V = HttpView;

    open spec fn view(&self) -> HttpView {
        HttpView {
            method: text::opt_text(self.method),
            url: text::opt_text(self.url),
            status_code: self.status_code,
            headers: text::opt_text(self.headers),
            body: text::opt_text(self.body),
        }
    }
}

impl Clone for HttpContext {
    fn clone(&self) -> (copy: Self)
        ensures
            copy@ == self@,
    {
        HttpContext {
            method: text::copy_opt(&self.method),
            url: text::copy_opt(&self.url),
            status_code: self.status_code,
            headers: text::copy_opt(&self.headers),
            body: text::copy_opt(&self.body),
        }
    }
}

/// What attributes hold.
pub open spec fn attributes_of(attributes: Seq<Attribute>) -> Seq<AttributeView> {
    attributes.map_values(|a: Attribute| a@)
}

/// What an optional context holds.
pub open spec fn opt_http(http: Option<&HttpContext>) -> Option<HttpView> {
    match http {
        Some(context) => Some(context@),
        None => None,
    }
}

/// An attribute with a text.
pub open spec fn text_attribute(key: Seq<char>, value: Seq<char>) -> AttributeView {
    AttributeView { key, value: ValueView::Text(value) }
}

/// An attribute with an integer.
pub open spec fn integer_attribute(key: Seq<char>, value: int) -> AttributeView {
    AttributeView { key, value: ValueView::Integer(value) }
}

/// An attribute with a flag.
pub open spec fn flag_attribute(key: Seq<char>, value: bool) -> AttributeView {
    AttributeView { key, value: ValueView::Flag(value) }
}

/// The attributes that pairs of texts stand for.
pub open spec fn text_attributes(pairs: Seq<(Seq<char>, Seq<char>)>) -> Seq<AttributeView> {
    pairs.map_values(|p: (Seq<char>, Seq<char>)| text_attribute(p.0, p.1))
}

/// The characters of pairs of strings.
pub open spec fn pairs_of(pairs: Seq<(String, String)>) -> Seq<(Seq<char>, Seq<char>)> {
    pairs.map_values(|p: (String, String)| (p.0@, p.1@))
}

/// No two attributes have the same key.
pub open spec fn distinct_keys(attributes: Seq<AttributeView>) -> bool {
    forall|i: int, j: int|
        0 <= i < j < attributes.len() ==> (#[trigger] attributes[i]).key != (
        #[trigger] attributes[j]).key
}

/// Adds an attribute with a text.
pub fn push_text(attributes: &mut Vec<Attribute>, key: &str, value: &str)
    ensures
        attributes_of(final(attributes)@) == attributes_of(old(attributes)@).push(
            text_attribute(key@, value@),
        ),
{
    attributes.push(
        Attribute { key: key.to_string(), value: AttributeValue::Text(value.to_string()) },
    );
    assert(attributes_of(attributes@) =~= attributes_of(old(attributes)@).push(
        text_attribute(key@, value@),
    ));
}

/// Adds an attribute with an integer.
pub fn push_integer(attributes: &mut Vec<Attribute>, key: &str, value: i64)
    ensures
        attributes_of(final(attributes)@) == attributes_of(old(attributes)@).push(
            integer_attribute(key@, value as int),
        ),
{
    attributes.push(Attribute { key: key.to_string(), value: AttributeValue::Integer(value) });
    assert(attributes_of(attributes@) =~= attributes_of(old(attributes)@).push(
        integer_attribute(key@, value as int),
    ));
}

/// Adds an attribute with a flag.
pub fn push_flag(attributes: &mut Vec<Attribute>, key: &str, value: bool)
    ensures
        attributes_of(final(attributes)@) == attributes_of(old(attributes)@).push(
            flag_attribute(key@, value),
        ),
{
    attributes.push(Attribute { key: key.to_string(), value: AttributeValue::Flag(value) });
    assert(attributes_of(attributes@) =~= attributes_of(old(attributes)@).push(
        flag_attribute(key@, value),
    ));
}

/// The severity that a level is sent with.
pub open spec fn severity_of(level: LogLevel) -> Severity {
    match level {
        LogLevel::Debug => Severity::Debug,
        LogLevel::Info => Severity::Info,
        LogLevel::Warn => Severity::Warn,
        LogLevel::Error => Severity::Error,
        LogLevel::Fatal => Severity::Fatal,
        LogLevel::Panic => Severity::Fatal,
    }
}

} // verus!
