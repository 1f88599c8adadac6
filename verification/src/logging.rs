//! The log bridge: events written through a leveled logging facade become
//! log records, filtered by a least severity and tagged with the span in
//! whose scope they were written.

use crate::context::{ContextView, TelemetryContext};
use crate::text_map::{pairs_of, TextPair};
use std::str::FromStr;
use vstd::prelude::*;

verus! {

/// How grave an event is. `Error` is the gravest, `Trace` the least grave.
#[derive(Clone, Copy, Debug, PartialEq, Eq, Structural)]
pub enum Severity {
    Error,
    Warn,
    Info,
    Debug,
    Trace,
}

/// The facade through which an event was written.
#[derive(Clone, Copy, Debug, PartialEq, Eq, Structural)]
pub enum Facade {
    /// The plain leveled logger.
    Log,
    /// The span-aware tracing facade.
    Tracing,
}

/// The lower-case form of an ASCII capital; any other character unchanged.
pub open spec fn ascii_lower(c: char) -> char {
    if 'A' <= c && c <= 'Z' {
        ((c as u32) + 32) as char
    } else {
        c
    }
}

/// Equal up to the case of ASCII letters.
pub open spec fn same_ignoring_case(a: Seq<char>, b: Seq<char>) -> bool {
    &&& a.len() == b.len()
    &&& forall|i: int| 0 <= i < a.len() ==> ascii_lower(#[trigger] a[i]) == ascii_lower(b[i])
}

/// The severity that a name stands for: one of `error`, `warn`, `info`,
/// `debug` and `trace`, in any mix of upper and lower case.
pub open spec fn severity_named(text: Seq<char>) -> Option<Severity> {
    if same_ignoring_case(text, seq!['e', 'r', 'r', 'o', 'r']) {
        Some(Severity::Error)
    } else if same_ignoring_case(text, seq!['w', 'a', 'r', 'n']) {
        Some(Severity::Warn)
    } else if same_ignoring_case(text, seq!['i', 'n', 'f', 'o']) {
        Some(Severity::Info)
    } else if same_ignoring_case(text, seq!['d', 'e', 'b', 'u', 'g']) {
        Some(Severity::Debug)
    } else if same_ignoring_case(text, seq!['t', 'r', 'a', 'c', 'e']) {
        Some(Severity::Trace)
    } else {
        None
    }
}

/// Calls `log::Level::from_str`.
///
/// Believed: the result is the level whose name equals the text up to the
/// case of ASCII letters, and an error for every other text, `off` included.
#[verifier::external_body]
fn level_from_text(text: &str) -> (out: Option<Severity>)
    ensures
        out == severity_named(text@),
{
    match log::Level::from_str(text) {
        Ok(log::Level::Error) => Some(Severity::Error),
        Ok(log::Level::Warn) => Some(Severity::Warn),
        Ok(log::Level::Info) => Some(Severity::Info),
        Ok(log::Level::Debug) => Some(Severity::Debug),
        Ok(log::Level::Trace) => Some(Severity::Trace),
        Err(_) => None,
    }
}

impl Severity {
    /// Position in the order of gravity: 1 for `Error` up to 5 for `Trace`.
    pub open spec fn rank(self) -> int {
        match self {
            Severity::Error => 1,
            Severity::Warn => 2,
            Severity::Info => 3,
            Severity::Debug => 4,
            Severity::Trace => 5,
        }
    }

    /// Position in the order of gravity.
    pub fn rank_number(self) -> (r: u8)
        ensures
            r == self.rank(),
    {
        match self {
            Severity::Error => 1,
            Severity::Warn => 2,
            Severity::Info => 3,
            Severity::Debug => 4,
            Severity::Trace => 5,
        }
    }

    /// The severity that `text` names, if it names one.
    pub fn parse(text: &str) -> (out: Option<Severity>)
        ensures
            out == severity_named(text@),
    {
        level_from_text(text)
    }

    /// Whether an event of this severity passes a filter that lets
    /// through `least` and everything graver.
    pub fn passes(self, least: Severity) -> (b: bool)
        ensures
            b == (self.rank() <= least.rank()),
    {
        self.rank_number() <= least.rank_number()
    }
}

/// An event as specifications see it.
pub struct EventView {
    pub facade: Facade,
    pub level: Severity,
    pub spans: Seq<Seq<char>>,
    pub message: Seq<char>,
    pub fields: Seq<TextPair>,
}

/// An event written through a logging facade.
#[derive(Debug)]
pub struct LogEvent {
    pub facade: Facade,
    pub level: Severity,
    /// The names of the spans that enclose the event, outermost first.
    pub spans: Vec<String>,
    pub message: String,
    /// Structured fields given with the message.
    pub fields: Vec<(String, String)>,
}

/// The names of a list of strings.
pub open spec fn texts_of(v: Seq<String>) -> Seq<Seq<char>> {
    v.map_values(|s: String| s@)
}

impl View for LogEvent {
    type V = EventView;

    open spec fn view(&self) -> EventView {
        EventView {
            facade: self.facade,
            level: self.level,
            spans: texts_of(self.spans@),
            message: self.message@,
            fields: pairs_of(self.fields@),
        }
    }
}

/// The events of a list, each by its view.
pub open spec fn events_of(v: Seq<LogEvent>) -> Seq<EventView> {
    v.map_values(|e: LogEvent| e@)
}

/// An event outside any span and without fields.
pub open spec fn plain_event(facade: Facade, level: Severity, message: Seq<char>) -> EventView {
    EventView { facade, level, spans: Seq::empty(), message, fields: Seq::empty() }
}

/// The events as they appear when written inside the span `name`.
pub open spec fn within_span(name: Seq<char>, events: Seq<EventView>) -> Seq<EventView> {
    events.map_values(|e: EventView| EventView { spans: seq![name] + e.spans, ..e })
}

impl LogEvent {
    /// An event outside any span and without fields.
    pub fn new(facade: Facade, level: Severity, message: &str) -> (e: Self)
        ensures
            e@ == plain_event(facade, level, message@),
    {
        let e = LogEvent {
            facade,
            level,
            spans: Vec::new(),
            message: message.to_owned(),
            fields: Vec::new(),
        };
        assert(e@.spans =~= Seq::<Seq<char>>::empty());
        assert(e@.fields =~= Seq::<TextPair>::empty());
        e
    }

    /// This event with one more field.
    pub fn with_field(self, key: &str, value: &str) -> (e: Self)
        ensures
            e@ == (EventView { fields: self@.fields.push((key@, value@)), ..self@ }),
    {
        let mut fields = self.fields;
        fields.push((key.to_owned(), value.to_owned()));
        let e = LogEvent { facade: self.facade, level: self.level, spans: self.spans, message: self.message, fields };
        assert(e@.fields =~= self@.fields.push((key@, value@)));
        e
    }

    /// This event as it appears when written inside the span `name`.
    pub fn inside(&self, name: &str) -> (e: Self)
        ensures
            e@ == (EventView { spans: seq![name@] + self@.spans, ..self@ }),
    {
        let mut spans: Vec<String> = Vec::new();
        spans.push(name.to_owned());
        let mut i: usize = 0;
        while i < self.spans.len()
            invariant
                i <= self.spans.len(),
                spans.len() == i + 1,
                spans@[0]@ == name@,
                forall|j: int| 0 <= j < i ==> (#[trigger] spans@[j + 1])@ == self.spans@[j]@,
            decreases self.spans.len() - i,
        {
            spans.push(self.spans[i].clone());
            i += 1;
        }
        let ghost want = seq![name@] + texts_of(self.spans@);
        assert forall|k: int| 0 <= k < want.len() implies texts_of(spans@)[k] == want[k] by {
            if k > 0 {
                assert(spans@[(k - 1) + 1]@ == self.spans@[k - 1]@);
            }
        }
        assert(texts_of(spans@) =~= want);
        LogEvent {
            facade: self.facade,
            level: self.level,
            spans,
            message: self.message.clone(),
            fields: copy_pairs(&self.fields),
        }
    }
}

/// Puts every event of `events` inside the span `name`.
pub fn enter_span(name: &str, events: &Vec<LogEvent>) -> (out: Vec<LogEvent>)
    ensures
        events_of(out@) == within_span(name@, events_of(events@)),
{
    let mut out: Vec<LogEvent> = Vec::new();
    let mut i: usize = 0;
    while i < events.len()
        invariant
            i <= events.len(),
            out.len() == i,
            forall|j: int|
                0 <= j < i ==> (#[trigger] out@[j])@ == (EventView {
                    spans: seq![name@] + events@[j]@.spans,
                    ..events@[j]@
                }),
        decreases events.len() - i,
    {
        out.push(events[i].inside(name));
        i += 1;
    }
    out
}

/// What the bridge hands to the log pipeline for one event.
#[derive(Debug)]
pub struct LogRecord {
    pub level: Severity,
    pub message: String,
    pub fields: Vec<(String, String)>,
    /// Trace id of the span in whose scope the event was written.
    pub trace_id: Option<u128>,
    /// Span id of the span in whose scope the event was written.
    pub span_id: Option<u64>,
}

/// A log record as specifications see it.
pub struct RecordView {
    pub level: Severity,
    pub message: Seq<char>,
    pub fields: Seq<TextPair>,
    pub trace_id: Option<u128>,
    pub span_id: Option<u64>,
}

impl View for LogRecord {
    type V = RecordView;

    open spec fn view(&self) -> RecordView {
        RecordView {
            level: self.level,
            message: self.message@,
            fields: pairs_of(self.fields@),
            trace_id: self.trace_id,
            span_id: self.span_id,
        }
    }
}

/// The record for an event that passes the filter: the event's level,
/// message and fields, with the ids of the scope where it names a span.
pub open spec fn record_for(event: EventView, scope: Option<ContextView>) -> RecordView {
    let attached = scope is Some && scope->0.is_valid();
    RecordView {
        level: event.level,
        message: event.message,
        fields: event.fields,
        trace_id: if attached {
            Some(scope->0.trace_id)
        } else {
            None
        },
        span_id: if attached {
            Some(scope->0.span_id)
        } else {
            None
        },
    }
}

/// What the bridge makes of an event: nothing where the event is less
/// grave than the filter allows, else its record.
pub open spec fn forwarded(least: Severity, event: EventView, scope: Option<ContextView>) -> Option<RecordView> {
    if event.level.rank() <= least.rank() {
        Some(record_for(event, scope))
    } else {
        None
    }
}

/// The view of an optional context.
pub open spec fn scope_view(scope: Option<&TelemetryContext>) -> Option<ContextView> {
    match scope {
        Some(cx) => Some(cx@),
        None => None,
    }
}

/// The view of an optional record.
pub open spec fn record_view(record: Option<LogRecord>) -> Option<RecordView> {
    match record {
        Some(r) => Some(r@),
        None => None,
    }
}

/// The characters of `info`, the level used where none is configured.
pub open spec fn default_level_name() -> Seq<char> {
    seq!['i', 'n', 'f', 'o']
}

/// The level text that counts: the configured one, or `info`.
pub open spec fn effective_level_name(configured: Option<Seq<char>>) -> Seq<char> {
    match configured {
        Some(t) => t,
        None => default_level_name(),
    }
}

/// A level text that names no severity.
#[derive(Debug)]
pub struct InvalidSeverity {
    /// The text as it was configured.
    pub text: String,
}

/// The filter in front of the log pipeline.
#[derive(Clone, Copy, Debug)]
pub struct LogBridge {
    /// The least grave severity that still passes.
    pub least: Severity,
}

impl LogBridge {
    /// A bridge that lets through `least` and everything graver.
    pub fn new(least: Severity) -> (b: Self)
        ensures
            b.least == least,
    {
        LogBridge { least }
    }

    /// A bridge for a configured level name; `info` where none is
    /// configured. A name that is no severity is an error that carries
    /// the name.
    pub fn from_level_name(configured: Option<&str>) -> (out: Result<LogBridge, InvalidSeverity>)
        ensures
            match out {
                Ok(b) => severity_named(effective_level_name(option_str_view(configured))) == Some(b.least),
                Err(e) => severity_named(effective_level_name(option_str_view(configured))) is None && e.text@
                    == effective_level_name(option_str_view(configured)),
            },
    {
        proof {
            reveal_strlit("info");
        }
        let name: &str = match configured {
            Some(t) => t,
            None => "info",
        };
        assert(name@ =~= effective_level_name(option_str_view(configured)));
        match Severity::parse(name) {
            Some(least) => Ok(LogBridge { least }),
            None => Err(InvalidSeverity { text: name.to_owned() }),
        }
    }

    /// Whether an event of severity `level` passes the filter.
    pub fn enabled(&self, level: Severity) -> (b: bool)
        ensures
            b == (level.rank() <= self.least.rank()),
    {
        level.passes(self.least)
    }

    /// Turns an event into a log record, or drops it. The filter is
    /// tested before anything is copied.
    pub fn forward(&self, event: &LogEvent, scope: Option<&TelemetryContext>) -> (out: Option<LogRecord>)
        ensures
            record_view(out) == forwarded(self.least, event@, scope_view(scope)),
    {
        if !event.level.passes(self.least) {
            return None;
        }
        let mut trace_id: Option<u128> = None;
        let mut span_id: Option<u64> = None;
        match scope {
            Some(cx) => {
                if cx.is_valid() {
                    trace_id = Some(cx.trace_id);
                    span_id = Some(cx.span_id);
                }
            },
            None => {},
        }
        let fields = copy_pairs(&event.fields);
        Some(LogRecord { level: event.level, message: event.message.clone(), fields, trace_id, span_id })
    }
}

/// The view of an optional string slice.
pub open spec fn option_str_view(t: Option<&str>) -> Option<Seq<char>> {
    match t {
        Some(s) => Some(s@),
        None => None,
    }
}

/// A copy of a list of string pairs.
pub fn copy_pairs(pairs: &Vec<(String, String)>) -> (out: Vec<(String, String)>)
    ensures
        pairs_of(out@) == pairs_of(pairs@),
{
    let mut out: Vec<(String, String)> = Vec::new();
    let mut i: usize = 0;
    while i < pairs.len()
        invariant
            i <= pairs.len(),
            out.len() == i,
            forall|j: int| 0 <= j < i ==> (#[trigger] out@[j]).0@ == pairs@[j].0@ && out@[j].1@ == pairs@[j].1@,
        decreases pairs.len() - i,
    {
        out.push((pairs[i].0.clone(), pairs[i].1.clone()));
        i += 1;
    }
    out
}

} // verus!
