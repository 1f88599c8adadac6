//! The telemetry context: the position of a span in a trace, with the
//! baggage that travels along.

use crate::text_map::{pairs_after_set, TextMap};
use vstd::prelude::*;

verus! {

/// A telemetry context as specifications see it.
pub struct ContextView {
    pub trace_id: u128,
    pub span_id: u64,
    pub parent_span_id: Option<u64>,
    pub flags: u8,
    pub trace_state: Seq<char>,
    pub baggage: Map<Seq<char>, Seq<char>>,
}

impl ContextView {
    /// The zero-value context: no trace, no span, no baggage.
    pub open spec fn empty() -> ContextView {
        ContextView {
            trace_id: 0,
            span_id: 0,
            parent_span_id: None,
            flags: 0,
            trace_state: Seq::empty(),
            baggage: Map::empty(),
        }
    }

    /// A context names a span when neither id is zero.
    pub open spec fn is_valid(self) -> bool {
        self.trace_id != 0 && self.span_id != 0
    }
}

/// Trace id, span id, parent span id, flags, trace state and baggage. A
/// context is never changed in place: each method hands out a new one.
pub struct TelemetryContext {
    pub trace_id: u128,
    pub span_id: u64,
    pub parent_span_id: Option<u64>,
    pub flags: u8,
    pub trace_state: String,
    pub baggage: TextMap,
}

impl View for TelemetryContext {
    type V = ContextView;

    open spec fn view(&self) -> ContextView {
        ContextView {
            trace_id: self.trace_id,
            span_id: self.span_id,
            parent_span_id: self.parent_span_id,
            flags: self.flags,
            trace_state: self.trace_state@,
            baggage: self.baggage@,
        }
    }
}

impl Clone for TelemetryContext {
    fn clone(&self) -> (c: Self)
        ensures
            c@ == self@,
            c.baggage.pairs() == self.baggage.pairs(),
    {
        TelemetryContext {
            trace_id: self.trace_id,
            span_id: self.span_id,
            parent_span_id: self.parent_span_id,
            flags: self.flags,
            trace_state: self.trace_state.clone(),
            baggage: self.baggage.clone(),
        }
    }
}

impl TelemetryContext {
    /// The zero-value context.
    pub fn empty() -> (c: Self)
        ensures
            c@ == ContextView::empty(),
            c.baggage.pairs() == Seq::<(Seq<char>, Seq<char>)>::empty(),
    {
        TelemetryContext {
            trace_id: 0,
            span_id: 0,
            parent_span_id: None,
            flags: 0,
            trace_state: String::new(),
            baggage: TextMap::new(),
        }
    }

    /// The context of a span that another process reported: its parent is
    /// not known here.
    pub fn remote(trace_id: u128, span_id: u64, flags: u8) -> (c: Self)
        ensures
            c@ == (ContextView { trace_id, span_id, flags, ..ContextView::empty() }),
            c.baggage.pairs() == Seq::<(Seq<char>, Seq<char>)>::empty(),
    {
        TelemetryContext {
            trace_id,
            span_id,
            parent_span_id: None,
            flags,
            trace_state: String::new(),
            baggage: TextMap::new(),
        }
    }

    /// Whether the context names a span.
    pub fn is_valid(&self) -> (b: bool)
        ensures
            b == self@.is_valid(),
    {
        self.trace_id != 0 && self.span_id != 0
    }

    /// Whether the sampled bit of the flags is set.
    pub fn is_sampled(&self) -> (b: bool)
        ensures
            b == (self.flags % 2 == 1),
    {
        self.flags % 2 == 1
    }

    /// The context of a new span below this one: same trace, flags, trace
    /// state and baggage; this span becomes the parent.
    pub fn child(&self, span_id: u64) -> (c: Self)
        ensures
            c@ == (ContextView { span_id, parent_span_id: Some(self.span_id), ..self@ }),
            c.baggage.pairs() == self.baggage.pairs(),
    {
        TelemetryContext {
            trace_id: self.trace_id,
            span_id,
            parent_span_id: Some(self.span_id),
            flags: self.flags,
            trace_state: self.trace_state.clone(),
            baggage: self.baggage.clone(),
        }
    }

    /// This context with one more baggage entry, or with a new value for an
    /// entry that it has.
    pub fn with_baggage(&self, key: &str, value: &str) -> (c: Self)
        ensures
            c@ == (ContextView { baggage: self@.baggage.insert(key@, value@), ..self@ }),
            c.baggage.pairs() == pairs_after_set(self.baggage.pairs(), key@, value@),
    {
        let mut baggage = self.baggage.clone();
        baggage.set(key.to_owned(), value.to_owned());
        TelemetryContext {
            trace_id: self.trace_id,
            span_id: self.span_id,
            parent_span_id: self.parent_span_id,
            flags: self.flags,
            trace_state: self.trace_state.clone(),
            baggage,
        }
    }
}

} // verus!
