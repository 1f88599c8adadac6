//! The span middleware: one span per inbound request, linked to the span
//! that the caller announced in its headers.

use crate::context::{ContextView, TelemetryContext};
use crate::propagation::{
    carries_span, extract_spec, inject_spec, lemma_extract_reads_traceparent, lemma_extract_without_span,
    lemma_round_trip_baggage, lemma_round_trip_ids, Format, Propagator,
};
use crate::text_map::TextMap;
use crate::wire::{baggage_header_for, plain_baggage, traceparent_name, traceparent_text};
use opentelemetry_sdk::trace::{IdGenerator, RandomIdGenerator};
use vstd::prelude::*;
use vstd::string::StringExecFns;

verus! {

/// How a span ended.
#[derive(Clone, Copy, Debug, PartialEq, Eq, Structural)]
pub enum SpanStatus {
    Unset,
    /// The work was done; written `ok` on the wire.
    Success,
    Error,
}

/// How the handler of a request ended.
#[derive(Clone, Copy, Debug, PartialEq, Eq, Structural)]
pub enum Completion {
    /// The handler answered with this HTTP status code.
    Responded(u16),
    /// The handler did not return: it panicked or was torn down.
    Aborted,
}

/// The span name of a request: method, a space, the path.
pub open spec fn span_name_text(method: Seq<char>, path: Seq<char>) -> Seq<char> {
    method + seq![' '] + path
}

/// The context of a span opened below `parent`. With a valid parent the
/// span joins the parent's trace; without one it starts the trace
/// `fresh_trace_id`. Baggage is inherited either way.
pub open spec fn opened_context(parent: ContextView, fresh_trace_id: u128, fresh_span_id: u64) -> ContextView {
    if parent.is_valid() {
        ContextView { span_id: fresh_span_id, parent_span_id: Some(parent.span_id), ..parent }
    } else {
        ContextView {
            trace_id: fresh_trace_id,
            span_id: fresh_span_id,
            parent_span_id: None,
            flags: parent.flags,
            trace_state: parent.trace_state,
            baggage: parent.baggage,
        }
    }
}

/// The status of a span whose handler ended with `completion`: an error
/// for a server-side failure (status 500 to 599) and for an abort.
pub open spec fn status_for(completion: Completion) -> SpanStatus {
    match completion {
        Completion::Responded(code) => if 500 <= code <= 599 {
            SpanStatus::Error
        } else {
            SpanStatus::Success
        },
        Completion::Aborted => SpanStatus::Error,
    }
}

/// The end of a span that started at `start` and was seen to end at `now`:
/// never before its start.
pub open spec fn end_time(start: u64, now: u64) -> u64 {
    if now >= start {
        now
    } else {
        start
    }
}

/// A span as specifications see it.
pub struct SpanView {
    pub name: Seq<char>,
    pub context: ContextView,
    pub start: u64,
    pub end: Option<u64>,
    pub status: SpanStatus,
    pub attributes: Map<Seq<char>, Seq<char>>,
}

/// A timed unit of work. `context` holds its own ids and the id of its
/// parent span.
pub struct Span {
    pub name: String,
    pub context: TelemetryContext,
    pub start: u64,
    pub end: Option<u64>,
    pub status: SpanStatus,
    pub attributes: TextMap,
}

impl View for Span {
    type V = SpanView;

    open spec fn view(&self) -> SpanView {
        SpanView {
            name: self.name@,
            context: self.context@,
            start: self.start,
            end: self.end,
            status: self.status,
            attributes: self.attributes@,
        }
    }
}

/// The span as it is opened: no end yet, status unset, no attributes.
pub open spec fn opened_span(
    parent: ContextView,
    method: Seq<char>,
    path: Seq<char>,
    fresh_trace_id: u128,
    fresh_span_id: u64,
    now: u64,
) -> SpanView {
    SpanView {
        name: span_name_text(method, path),
        context: opened_context(parent, fresh_trace_id, fresh_span_id),
        start: now,
        end: None,
        status: SpanStatus::Unset,
        attributes: Map::empty(),
    }
}

/// The span as it is closed.
pub open spec fn closed_span(span: SpanView, completion: Completion, now: u64) -> SpanView {
    SpanView { end: Some(end_time(span.start, now)), status: status_for(completion), ..span }
}

impl Span {
    /// Whether the span has been closed.
    pub fn is_closed(&self) -> (b: bool)
        ensures
            b == self@.end is Some,
    {
        self.end.is_some()
    }

    /// Sets an attribute of an open span. A closed span is not changed
    /// any more: then the answer is `false`.
    pub fn set_attribute(&mut self, key: &str, value: &str) -> (done: bool)
        ensures
            done == old(self)@.end is None,
            done ==> final(self)@ == (SpanView {
                attributes: old(self)@.attributes.insert(key@, value@),
                ..old(self)@
            }),
            !done ==> final(self)@ == old(self)@,
    {
        if self.end.is_some() {
            return false;
        }
        self.attributes.set(key.to_owned(), value.to_owned());
        true
    }

    /// How long the span lasted; none while it is open.
    pub fn duration(&self) -> (d: Option<u64>)
        ensures
            self@.end is None ==> d is None,
            self@.end is Some && self@.end->0 >= self.start ==> d == Some((self@.end->0 - self.start) as u64),
            self@.end is Some && self@.end->0 < self.start ==> d == Some(0u64),
    {
        match self.end {
            Some(end) => if end >= self.start {
                Some(end - self.start)
            } else {
                Some(0)
            },
            None => None,
        }
    }
}

/// The name of the span of a request.
pub fn span_name(method: &str, path: &str) -> (name: String)
    ensures
        name@ == span_name_text(method@, path@),
{
    proof {
        reveal_strlit(" ");
    }
    let mut name = method.to_owned();
    name.append(" ");
    name.append(path);
    name
}

/// Opens the span of a request. `parent` is the context read from the
/// inbound headers; the two fresh ids come from the id generator.
pub fn open_span(
    parent: TelemetryContext,
    method: &str,
    path: &str,
    fresh_trace_id: u128,
    fresh_span_id: u64,
    now: u64,
) -> (span: Span)
    ensures
        span@ == opened_span(parent@, method@, path@, fresh_trace_id, fresh_span_id, now),
        span.context.baggage.pairs() == parent.baggage.pairs(),
{
    let name = span_name(method, path);
    let context = if parent.is_valid() {
        TelemetryContext {
            trace_id: parent.trace_id,
            span_id: fresh_span_id,
            parent_span_id: Some(parent.span_id),
            flags: parent.flags,
            trace_state: parent.trace_state,
            baggage: parent.baggage,
        }
    } else {
        TelemetryContext {
            trace_id: fresh_trace_id,
            span_id: fresh_span_id,
            parent_span_id: None,
            flags: parent.flags,
            trace_state: parent.trace_state,
            baggage: parent.baggage,
        }
    };
    Span { name, context, start: now, end: None, status: SpanStatus::Unset, attributes: TextMap::new() }
}

/// Closes a span: sets the status that the completion calls for and the
/// end time.
pub fn close_span(span: Span, completion: Completion, now: u64) -> (closed: Span)
    ensures
        closed@ == closed_span(span@, completion, now),
        closed.context.baggage.pairs() == span.context.baggage.pairs(),
{
    let status = match completion {
        Completion::Responded(code) => if 500 <= code && code <= 599 {
            SpanStatus::Error
        } else {
            SpanStatus::Success
        },
        Completion::Aborted => SpanStatus::Error,
    };
    let end = if now >= span.start {
        now
    } else {
        span.start
    };
    Span {
        name: span.name,
        context: span.context,
        start: span.start,
        end: Some(end),
        status,
        attributes: span.attributes,
    }
}

/// Asks `RandomIdGenerator::new_trace_id` for a trace id.
///
/// Nothing is believed of the number: it is random.
#[verifier::external_body]
fn fresh_trace_id() -> (id: u128) {
    u128::from_be_bytes(RandomIdGenerator::default().new_trace_id().to_bytes())
}

/// Asks `RandomIdGenerator::new_span_id` for a span id.
///
/// Nothing is believed of the number: it is random.
#[verifier::external_body]
fn fresh_span_id() -> (id: u64) {
    u64::from_be_bytes(RandomIdGenerator::default().new_span_id().to_bytes())
}

/// Where the handling of one request stands.
pub enum RequestTrace {
    /// Nothing has been read yet.
    Idle,
    /// The inbound headers have been read; this is the caller's context.
    Extracting(TelemetryContext),
    /// The request's span is open and the handler runs.
    SpanOpen(Span),
    /// The handler is done; the span is closed and ready for export.
    SpanClosed(Span),
}

/// The state of a request as specifications see it.
pub enum TraceView {
    Idle,
    Extracting(ContextView),
    SpanOpen(SpanView),
    SpanClosed(SpanView),
}

impl View for RequestTrace {
    type V = TraceView;

    open spec fn view(&self) -> TraceView {
        match self {
            RequestTrace::Idle => TraceView::Idle,
            RequestTrace::Extracting(cx) => TraceView::Extracting(cx@),
            RequestTrace::SpanOpen(span) => TraceView::SpanOpen(span@),
            RequestTrace::SpanClosed(span) => TraceView::SpanClosed(span@),
        }
    }
}

/// The state after the inbound headers were read. Only an idle request
/// reads headers.
pub open spec fn after_headers(state: TraceView, formats: Seq<Format>, headers: Map<Seq<char>, Seq<char>>) -> TraceView {
    match state {
        TraceView::Idle => TraceView::Extracting(extract_spec(formats, ContextView::empty(), headers)),
        _ => state,
    }
}

/// The state after the span was opened. Only a request that has read its
/// headers opens a span.
pub open spec fn after_open(
    state: TraceView,
    method: Seq<char>,
    path: Seq<char>,
    fresh_trace_id: u128,
    fresh_span_id: u64,
    now: u64,
) -> TraceView {
    match state {
        TraceView::Extracting(parent) => TraceView::SpanOpen(
            opened_span(parent, method, path, fresh_trace_id, fresh_span_id, now),
        ),
        _ => state,
    }
}

/// The state after the handler ended. Only an open span is closed.
pub open spec fn after_completion(state: TraceView, completion: Completion, now: u64) -> TraceView {
    match state {
        TraceView::SpanOpen(span) => TraceView::SpanClosed(closed_span(span, completion, now)),
        _ => state,
    }
}

impl RequestTrace {
    /// A request of which nothing has been read.
    pub fn new() -> (state: Self)
        ensures
            state@ == TraceView::Idle,
    {
        RequestTrace::Idle
    }

    /// Reads the caller's context from the inbound headers.
    pub fn read_headers(self, propagator: &Propagator, headers: &TextMap) -> (next: Self)
        ensures
            next@ == after_headers(self@, propagator.formats(), headers@),
    {
        match self {
            RequestTrace::Idle => RequestTrace::Extracting(propagator.extract(headers)),
            other => other,
        }
    }

    /// Opens the request's span with the given fresh ids.
    pub fn open_with(self, method: &str, path: &str, fresh_trace_id: u128, fresh_span_id: u64, now: u64) -> (next:
        Self)
        ensures
            next@ == after_open(self@, method@, path@, fresh_trace_id, fresh_span_id, now),
    {
        match self {
            RequestTrace::Extracting(parent) => RequestTrace::SpanOpen(
                open_span(parent, method, path, fresh_trace_id, fresh_span_id, now),
            ),
            other => other,
        }
    }

    /// Opens the request's span with ids from the random id generator.
    /// Whatever ids come back, the span is the one that `open_with` makes
    /// of them.
    pub fn open(self, method: &str, path: &str, now: u64) -> (next: Self)
        ensures
            exists|fresh_trace_id: u128, fresh_span_id: u64|
                next@ == #[trigger] after_open(self@, method@, path@, fresh_trace_id, fresh_span_id, now),
    {
        self.open_with(method, path, fresh_trace_id(), fresh_span_id(), now)
    }

    /// Closes the request's span. This runs on every way out of the
    /// handler, an abort included.
    pub fn complete(self, completion: Completion, now: u64) -> (next: Self)
        ensures
            next@ == after_completion(self@, completion, now),
    {
        match self {
            RequestTrace::SpanOpen(span) => RequestTrace::SpanClosed(close_span(span, completion, now)),
            other => other,
        }
    }

    /// The context that nested work observes: that of the open span.
    pub fn current(&self) -> (cx: Option<TelemetryContext>)
        ensures
            match self@ {
                TraceView::SpanOpen(span) => cx is Some && cx->0@ == span.context,
                _ => cx is None,
            },
    {
        match self {
            RequestTrace::SpanOpen(span) => Some(span.context.clone()),
            _ => None,
        }
    }

    /// Hands the closed span over for export; none in any other state.
    pub fn finish(self) -> (span: Option<Span>)
        ensures
            match self@ {
                TraceView::SpanClosed(s) => span is Some && span->0@ == s,
                _ => span is None,
            },
    {
        match self {
            RequestTrace::SpanClosed(span) => Some(span),
            _ => None,
        }
    }
}

/// The headers for a call to another service, made while `current` is the
/// active context: an empty carrier into which the propagator has written.
///
/// The service that reads them with the same formats observes the ids of
/// `current`, so that its span gets the trace id of `current` and the span
/// id of `current` as parent; and it observes the baggage of `current`
/// where that is plain.
pub fn build_request_headers(propagator: &Propagator, current: &TelemetryContext) -> (headers: TextMap)
    ensures
        exists|h: Option<Seq<char>>|
            {
                &&& propagator.formats().contains(Format::Baggage) ==> baggage_header_for(
                    current.baggage.pairs(),
                    h,
                )
                &&& headers@ == #[trigger] inject_spec(propagator.formats(), current@, Map::empty(), h)
            },
        propagator.formats().contains(Format::TraceContext) && (current.trace_id == 0) == (current.span_id == 0)
            ==> extract_spec(propagator.formats(), ContextView::empty(), headers@).trace_id == current.trace_id
            && extract_spec(propagator.formats(), ContextView::empty(), headers@).span_id == current.span_id,
        propagator.formats().contains(Format::Baggage) && plain_baggage(current.baggage.pairs())
            ==> extract_spec(propagator.formats(), ContextView::empty(), headers@).baggage == current@.baggage,
{
    let mut headers = TextMap::new();
    propagator.inject(current, &mut headers);
    proof {
        let h = choose|h: Option<Seq<char>>|
            {
                &&& propagator.formats().contains(Format::Baggage) ==> baggage_header_for(
                    current.baggage.pairs(),
                    h,
                )
                &&& headers@ == #[trigger] inject_spec(propagator.formats(), current@, Map::empty(), h)
            };
        if propagator.formats().contains(Format::TraceContext) && (current.trace_id == 0) == (current.span_id
            == 0) {
            lemma_round_trip_ids(propagator.formats(), current@, h);
        }
        if propagator.formats().contains(Format::Baggage) && plain_baggage(current.baggage.pairs()) {
            lemma_round_trip_baggage(propagator.formats(), current@, current.baggage.pairs(), h);
        }
    }
    headers
}

/// Parent linkage. A request whose inbound headers carry trace id `t` and
/// span id `s` gets a span with trace id `t` and parent span id `s`,
/// whatever ids the generator hands out.
pub proof fn lemma_parent_linkage(
    formats: Seq<Format>,
    headers: Map<Seq<char>, Seq<char>>,
    t: u128,
    s: u64,
    flags: u8,
    method: Seq<char>,
    path: Seq<char>,
    fresh_trace_id: u128,
    fresh_span_id: u64,
    now: u64,
)
    requires
        formats.contains(Format::TraceContext),
        t != 0,
        s != 0,
        headers.contains_key(traceparent_name()),
        headers[traceparent_name()] == traceparent_text(t, s, flags),
    ensures
        ({
            let opened = after_open(
                after_headers(TraceView::Idle, formats, headers),
                method,
                path,
                fresh_trace_id,
                fresh_span_id,
                now,
            );
            &&& opened is SpanOpen
            &&& opened->SpanOpen_0.context.trace_id == t
            &&& opened->SpanOpen_0.context.parent_span_id == Some(s)
            &&& opened->SpanOpen_0.context.span_id == fresh_span_id
        }),
{
    lemma_extract_reads_traceparent(formats, headers, t, s, flags);
}

/// Root creation. A request whose headers name no span gets a span
/// without a parent, in the trace that the generator named.
pub proof fn lemma_root_creation(
    formats: Seq<Format>,
    headers: Map<Seq<char>, Seq<char>>,
    method: Seq<char>,
    path: Seq<char>,
    fresh_trace_id: u128,
    fresh_span_id: u64,
    now: u64,
)
    requires
        !carries_span(headers),
    ensures
        ({
            let opened = after_open(
                after_headers(TraceView::Idle, formats, headers),
                method,
                path,
                fresh_trace_id,
                fresh_span_id,
                now,
            );
            &&& opened is SpanOpen
            &&& opened->SpanOpen_0.context.trace_id == fresh_trace_id
            &&& opened->SpanOpen_0.context.parent_span_id is None
            &&& opened->SpanOpen_0.context.span_id == fresh_span_id
        }),
{
    lemma_extract_without_span(formats, headers);
}

/// A span is closed exactly once: completing a closed span changes
/// nothing.
pub proof fn lemma_complete_once(state: TraceView, first: Completion, t1: u64, second: Completion, t2: u64)
    ensures
        after_completion(after_completion(state, first, t1), second, t2) == after_completion(state, first, t1),
{
}

/// The layer that wraps every inbound request in a span. It holds the
/// propagator with which it reads the caller's context.
pub struct TraceLayer {
    pub propagator: Propagator,
}

/// The trace layer for a service that propagates with `propagator`.
pub fn build_otel_trace_layer(propagator: Propagator) -> (layer: TraceLayer)
    ensures
        layer.propagator.formats() == propagator.formats(),
{
    TraceLayer { propagator }
}

impl TraceLayer {
    /// Builds the span of a request: reads the caller's context from the
    /// headers and opens a span named after method and path below it. The
    /// ids of the span come from the random id generator; whatever they
    /// are, the span is the one that `after_open` makes of them.
    pub fn make_span(&self, method: &str, path: &str, headers: &TextMap, now: u64) -> (state: RequestTrace)
        ensures
            exists|fresh_trace_id: u128, fresh_span_id: u64|
                state@ == #[trigger] after_open(
                    after_headers(TraceView::Idle, self.propagator.formats(), headers@),
                    method@,
                    path@,
                    fresh_trace_id,
                    fresh_span_id,
                    now,
                ),
    {
        RequestTrace::new().read_headers(&self.propagator, headers).open(method, path, now)
    }

    /// Closes the span of a request whose handler ended.
    pub fn on_completion(&self, state: RequestTrace, completion: Completion, now: u64) -> (next: RequestTrace)
        ensures
            next@ == after_completion(state@, completion, now),
    {
        state.complete(completion, now)
    }
}

} // verus!
