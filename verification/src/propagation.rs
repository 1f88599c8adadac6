//! The composite propagator: an ordered list of header formats, each read
//! from and written to the same carrier.

use crate::context::{ContextView, TelemetryContext};
use crate::hex::{
    hex_text, lemma_hex_round_trip, lemma_hex_text_shape, lemma_u128_fits, lemma_u64_fits,
};
use crate::text_map::{pairs_map, pairs_of, TextMap, TextPair};
use crate::wire::{
    baggage_header_for, baggage_name, canonical_fields, canonical_traceparent, option_text, parsed_baggage,
    plain_baggage,
    read_baggage_header, read_trace_headers, trace_fields, trace_state_text, traceparent_name, traceparent_text,
    tracestate_name, write_baggage_header, write_trace_headers,
};
use vstd::prelude::*;

verus! {

/// A header format that the propagator can read and write.
#[derive(Clone, Copy, Debug, PartialEq, Eq, Structural)]
pub enum Format {
    /// The `baggage` header.
    Baggage,
    /// The `traceparent` and `tracestate` headers.
    TraceContext,
}

/// The value of a header, or the empty text where the carrier lacks it.
pub open spec fn header_or_empty(carrier: Map<Seq<char>, Seq<char>>, name: Seq<char>) -> Seq<char> {
    if carrier.contains_key(name) {
        carrier[name]
    } else {
        Seq::empty()
    }
}

/// What one format adds to a context from a carrier. Baggage is merged,
/// the carrier's entries winning; a valid `traceparent` replaces the span.
pub open spec fn extract_one(format: Format, cx: ContextView, carrier: Map<Seq<char>, Seq<char>>) -> ContextView {
    match format {
        Format::Baggage => if carrier.contains_key(baggage_name()) {
            ContextView {
                baggage: cx.baggage.union_prefer_right(parsed_baggage(carrier[baggage_name()])),
                ..cx
            }
        } else {
            cx
        },
        Format::TraceContext => if carrier.contains_key(traceparent_name()) {
            let fields = trace_fields(carrier[traceparent_name()]);
            if fields.0 != 0 && fields.1 != 0 {
                ContextView {
                    trace_id: fields.0,
                    span_id: fields.1,
                    parent_span_id: None,
                    flags: fields.2,
                    trace_state: trace_state_text(header_or_empty(carrier, tracestate_name())),
                    baggage: cx.baggage,
                }
            } else {
                cx
            }
        } else {
            cx
        },
    }
}

/// The context that the formats, applied in order, make of a carrier.
pub open spec fn extract_spec(formats: Seq<Format>, cx: ContextView, carrier: Map<Seq<char>, Seq<char>>) -> ContextView
    decreases formats.len(),
{
    if formats.len() == 0 {
        cx
    } else {
        extract_one(formats.last(), extract_spec(formats.drop_last(), cx, carrier), carrier)
    }
}

/// What one format writes into a carrier. `baggage` is the header value
/// that the baggage encoder produced, if it produced one.
pub open spec fn inject_one(
    format: Format,
    cx: ContextView,
    carrier: Map<Seq<char>, Seq<char>>,
    baggage: Option<Seq<char>>,
) -> Map<Seq<char>, Seq<char>> {
    match format {
        Format::Baggage => match baggage {
            Some(h) => carrier.insert(baggage_name(), h),
            None => carrier,
        },
        Format::TraceContext => if cx.is_valid() {
            carrier.insert(traceparent_name(), traceparent_text(cx.trace_id, cx.span_id, cx.flags)).insert(
                tracestate_name(),
                trace_state_text(cx.trace_state),
            )
        } else {
            carrier
        },
    }
}

/// The carrier after every format, in order, has written to it.
pub open spec fn inject_spec(
    formats: Seq<Format>,
    cx: ContextView,
    carrier: Map<Seq<char>, Seq<char>>,
    baggage: Option<Seq<char>>,
) -> Map<Seq<char>, Seq<char>>
    decreases formats.len(),
{
    if formats.len() == 0 {
        carrier
    } else {
        inject_one(formats.last(), cx, inject_spec(formats.drop_last(), cx, carrier, baggage), baggage)
    }
}

/// The propagator that a service installs: baggage first, then trace
/// context.
pub open spec fn standard_formats() -> Seq<Format> {
    seq![Format::Baggage, Format::TraceContext]
}

/// Merging entries one by one is merging their map.
proof fn lemma_merge_step(base: Map<Seq<char>, Seq<char>>, s: Seq<TextPair>, i: int)
    requires
        0 <= i < s.len(),
    ensures
        base.union_prefer_right(pairs_map(s.take(i + 1))) == base.union_prefer_right(
            pairs_map(s.take(i)),
        ).insert(s[i].0, s[i].1),
{
    assert(s.take(i + 1).drop_last() =~= s.take(i));
    assert(base.union_prefer_right(pairs_map(s.take(i + 1))) =~= base.union_prefer_right(
        pairs_map(s.take(i)),
    ).insert(s[i].0, s[i].1));
}

/// An ordered list of header formats.
pub struct Propagator {
    formats: Vec<Format>,
}

impl Propagator {
    /// The formats in the order in which they are applied.
    pub closed spec fn formats(&self) -> Seq<Format> {
        self.formats@
    }

    /// A propagator that applies `formats` in the given order.
    pub fn new(formats: Vec<Format>) -> (p: Self)
        ensures
            p.formats() == formats@,
    {
        Propagator { formats }
    }

    /// Baggage, then trace context.
    pub fn standard() -> (p: Self)
        ensures
            p.formats() == standard_formats(),
    {
        let mut formats: Vec<Format> = Vec::new();
        formats.push(Format::Baggage);
        formats.push(Format::TraceContext);
        Propagator { formats }
    }

    /// Whether `format` is among the formats.
    pub fn has(&self, format: Format) -> (b: bool)
        ensures
            b == self.formats().contains(format),
    {
        let mut i: usize = 0;
        while i < self.formats.len()
            invariant
                i <= self.formats.len(),
                forall|j: int| 0 <= j < i ==> self.formats@[j] != format,
            decreases self.formats.len() - i,
        {
            if self.formats[i] == format {
                return true;
            }
            i += 1;
        }
        false
    }

    /// Reads a context from `carrier`, starting from the zero-value context.
    pub fn extract(&self, carrier: &TextMap) -> (cx: TelemetryContext)
        ensures
            cx@ == extract_spec(self.formats(), ContextView::empty(), carrier@),
    {
        self.extract_with_context(TelemetryContext::empty(), carrier)
    }

    /// Reads a context from `carrier`, starting from `base`.
    pub fn extract_with_context(&self, base: TelemetryContext, carrier: &TextMap) -> (cx: TelemetryContext)
        ensures
            cx@ == extract_spec(self.formats(), base@, carrier@),
    {
        let ghost start = base@;
        let mut cx = base;
        let mut i: usize = 0;
        while i < self.formats.len()
            invariant
                i <= self.formats.len(),
                cx@ == extract_spec(self.formats@.take(i as int), start, carrier@),
            decreases self.formats.len() - i,
        {
            proof {
                assert(self.formats@.take(i as int + 1).drop_last() =~= self.formats@.take(i as int));
            }
            cx = extract_format(self.formats[i], cx, carrier);
            i += 1;
        }
        assert(self.formats@.take(i as int) =~= self.formats@);
        cx
    }

    /// Writes `context` into `carrier`, format by format. Headers that no
    /// format names stay as they are.
    ///
    /// The baggage value is the encoder's: the order of its members is not
    /// fixed, so the contract speaks of some value `h` that satisfies
    /// `baggage_header_for`.
    pub fn inject(&self, context: &TelemetryContext, carrier: &mut TextMap)
        ensures
            exists|h: Option<Seq<char>>|
                {
                    &&& self.formats().contains(Format::Baggage) ==> baggage_header_for(
                        context.baggage.pairs(),
                        h,
                    )
                    &&& final(carrier)@ == #[trigger] inject_spec(self.formats(), context@, old(carrier)@, h)
                },
    {
        let header: Option<String> = if self.has(Format::Baggage) {
            write_baggage_header(context.baggage.entries())
        } else {
            None
        };
        let ghost h: Option<Seq<char>> = option_text(header);
        let ghost before = carrier@;
        let mut i: usize = 0;
        while i < self.formats.len()
            invariant
                i <= self.formats.len(),
                h == option_text(header),
                carrier@ == inject_spec(self.formats@.take(i as int), context@, before, h),
            decreases self.formats.len() - i,
        {
            proof {
                assert(self.formats@.take(i as int + 1).drop_last() =~= self.formats@.take(i as int));
            }
            match self.formats[i] {
                Format::Baggage => {
                    match &header {
                        Some(t) => {
                            carrier.set("baggage".to_owned(), t.clone());
                        },
                        None => {},
                    }
                },
                Format::TraceContext => {
                    if context.is_valid() {
                        let out = write_trace_headers(
                            context.trace_id,
                            context.span_id,
                            context.flags,
                            context.trace_state.as_str(),
                        );
                        carrier.set("traceparent".to_owned(), out.0);
                        carrier.set("tracestate".to_owned(), out.1);
                    }
                },
            }
            i += 1;
        }
        assert(self.formats@.take(i as int) =~= self.formats@);
    }
}

/// Applies one format to a carrier.
fn extract_format(format: Format, cx: TelemetryContext, carrier: &TextMap) -> (out: TelemetryContext)
    ensures
        out@ == extract_one(format, cx@, carrier@),
{
    match format {
        Format::Baggage => {
            match carrier.get("baggage") {
                Some(header) => {
                    let found = read_baggage_header(header.as_str());
                    let baggage = merge_entries(cx.baggage, &found);
                    TelemetryContext {
                        trace_id: cx.trace_id,
                        span_id: cx.span_id,
                        parent_span_id: cx.parent_span_id,
                        flags: cx.flags,
                        trace_state: cx.trace_state,
                        baggage,
                    }
                },
                None => cx,
            }
        },
        Format::TraceContext => {
            match carrier.get("traceparent") {
                Some(traceparent) => {
                    let tracestate = match carrier.get("tracestate") {
                        Some(t) => t,
                        None => String::new(),
                    };
                    let out = read_trace_headers(traceparent.as_str(), tracestate.as_str());
                    if out.0 != 0 && out.1 != 0 {
                        TelemetryContext {
                            trace_id: out.0,
                            span_id: out.1,
                            parent_span_id: None,
                            flags: out.2,
                            trace_state: out.3,
                            baggage: cx.baggage,
                        }
                    } else {
                        cx
                    }
                },
                None => cx,
            }
        },
    }
}

/// Sets every entry of `found` in `base`, in order.
fn merge_entries(base: TextMap, found: &Vec<(String, String)>) -> (out: TextMap)
    ensures
        out@ == base@.union_prefer_right(pairs_map(pairs_of(found@))),
{
    let ghost start = base@;
    let ghost all = pairs_of(found@);
    let mut out = base;
    let mut i: usize = 0;
    while i < found.len()
        invariant
            i <= found.len(),
            all == pairs_of(found@),
            out@ == start.union_prefer_right(pairs_map(all.take(i as int))),
        decreases found.len() - i,
    {
        proof {
            lemma_merge_step(start, all, i as int);
        }
        out.set(found[i].0.clone(), found[i].1.clone());
        i += 1;
    }
    assert(all.take(i as int) =~= all);
    out
}

/// The three header names differ from one another.
pub proof fn lemma_header_names_differ()
    ensures
        baggage_name() != traceparent_name(),
        baggage_name() != tracestate_name(),
        traceparent_name() != tracestate_name(),
{
    reveal_strlit("baggage");
    reveal_strlit("traceparent");
    reveal_strlit("tracestate");
    assert(traceparent_name().len() == 11);
    assert(tracestate_name().len() == 10);
}

/// What `traceparent_text` writes is canonical, and spells out the ids and
/// the sampled bit that it was given.
pub proof fn lemma_traceparent_canonical(trace_id: u128, span_id: u64, flags: u8)
    requires
        trace_id != 0,
        span_id != 0,
    ensures
        canonical_traceparent(traceparent_text(trace_id, span_id, flags)),
        canonical_fields(traceparent_text(trace_id, span_id, flags)) == (trace_id, span_id, (flags % 2) as u8),
        trace_fields(traceparent_text(trace_id, span_id, flags)) == (trace_id, span_id, (flags % 2) as u8),
{
    let text = traceparent_text(trace_id, span_id, flags);
    lemma_hex_text_shape(trace_id as nat, 32);
    lemma_hex_text_shape(span_id as nat, 16);
    lemma_u128_fits(trace_id);
    lemma_u64_fits(span_id);
    lemma_hex_round_trip(trace_id as nat, 32);
    lemma_hex_round_trip(span_id as nat, 16);
    assert(text.subrange(3, 35) =~= hex_text(trace_id as nat, 32));
    assert(text.subrange(36, 52) =~= hex_text(span_id as nat, 16));
}

/// The carrier after injection depends only on which formats take part,
/// not on their order or on how often each occurs.
pub open spec fn injected_carrier(
    with_baggage: bool,
    with_trace: bool,
    cx: ContextView,
    carrier: Map<Seq<char>, Seq<char>>,
    baggage: Option<Seq<char>>,
) -> Map<Seq<char>, Seq<char>> {
    let first = if with_baggage {
        inject_one(Format::Baggage, cx, carrier, baggage)
    } else {
        carrier
    };
    if with_trace {
        inject_one(Format::TraceContext, cx, first, baggage)
    } else {
        first
    }
}

/// Injection comes to `injected_carrier`, whatever the order of the formats.
pub proof fn lemma_inject_closed_form(
    formats: Seq<Format>,
    cx: ContextView,
    carrier: Map<Seq<char>, Seq<char>>,
    baggage: Option<Seq<char>>,
)
    ensures
        inject_spec(formats, cx, carrier, baggage) == injected_carrier(
            formats.contains(Format::Baggage),
            formats.contains(Format::TraceContext),
            cx,
            carrier,
            baggage,
        ),
    decreases formats.len(),
{
    lemma_header_names_differ();
    if formats.len() > 0 {
        let rest = formats.drop_last();
        lemma_inject_closed_form(rest, cx, carrier, baggage);
        lemma_contains_last(formats, Format::Baggage);
        lemma_contains_last(formats, Format::TraceContext);
    }
}

/// The extracted context depends only on which formats take part.
pub open spec fn extracted_context(
    with_baggage: bool,
    with_trace: bool,
    cx: ContextView,
    carrier: Map<Seq<char>, Seq<char>>,
) -> ContextView {
    let first = if with_baggage {
        extract_one(Format::Baggage, cx, carrier)
    } else {
        cx
    };
    if with_trace {
        extract_one(Format::TraceContext, first, carrier)
    } else {
        first
    }
}

/// Extraction comes to `extracted_context`, whatever the order of the
/// formats.
pub proof fn lemma_extract_closed_form(formats: Seq<Format>, cx: ContextView, carrier: Map<Seq<char>, Seq<char>>)
    ensures
        extract_spec(formats, cx, carrier) == extracted_context(
            formats.contains(Format::Baggage),
            formats.contains(Format::TraceContext),
            cx,
            carrier,
        ),
    decreases formats.len(),
{
    if formats.len() > 0 {
        let rest = formats.drop_last();
        let last = formats.last();
        lemma_extract_closed_form(rest, cx, carrier);
        lemma_contains_last(formats, Format::Baggage);
        lemma_contains_last(formats, Format::TraceContext);
        let before = extracted_context(
            rest.contains(Format::Baggage),
            rest.contains(Format::TraceContext),
            cx,
            carrier,
        );
        let after = extracted_context(
            formats.contains(Format::Baggage),
            formats.contains(Format::TraceContext),
            cx,
            carrier,
        );
        let step = extract_one(last, before, carrier);
        assert(step.baggage =~= after.baggage);
    }
}

/// A list holds a format if its last element is that format or the rest
/// holds it.
proof fn lemma_contains_last(formats: Seq<Format>, format: Format)
    requires
        formats.len() > 0,
    ensures
        formats.contains(format) <==> formats.last() == format || formats.drop_last().contains(format),
{
    let rest = formats.drop_last();
    if formats.contains(format) {
        let i = choose|i: int| 0 <= i < formats.len() && formats[i] == format;
        if i < formats.len() - 1 {
            assert(rest[i] == format);
        }
    }
}

/// Round trip of the ids. Write a context into an empty carrier, read the
/// carrier back: trace id and span id are those of the context, whatever
/// the baggage and whatever baggage value was written.
///
/// This holds for a propagator with the trace-context format and for a
/// context whose ids are both zero or both non-zero. A context with one
/// zero id names no span: nothing is written for it and zeros are read.
pub proof fn lemma_round_trip_ids(formats: Seq<Format>, cx: ContextView, header: Option<Seq<char>>)
    requires
        formats.contains(Format::TraceContext),
        (cx.trace_id == 0) == (cx.span_id == 0),
    ensures
        ({
            let carrier = inject_spec(formats, cx, Map::empty(), header);
            let back = extract_spec(formats, ContextView::empty(), carrier);
            &&& back.trace_id == cx.trace_id
            &&& back.span_id == cx.span_id
        }),
{
    let carrier = inject_spec(formats, cx, Map::empty(), header);
    lemma_header_names_differ();
    lemma_inject_closed_form(formats, cx, Map::empty(), header);
    lemma_extract_closed_form(formats, ContextView::empty(), carrier);
    if cx.is_valid() {
        lemma_traceparent_canonical(cx.trace_id, cx.span_id, cx.flags);
    }
}

/// Round trip of the baggage. Write a context into an empty carrier, read
/// the carrier back: the baggage is that of the context.
///
/// This holds for a propagator with the baggage format and for plain
/// baggage. `header` stands for the baggage value that the encoder
/// produced.
pub proof fn lemma_round_trip_baggage(
    formats: Seq<Format>,
    cx: ContextView,
    entries: Seq<TextPair>,
    header: Option<Seq<char>>,
)
    requires
        formats.contains(Format::Baggage),
        cx.baggage == pairs_map(entries),
        plain_baggage(entries),
        baggage_header_for(entries, header),
    ensures
        extract_spec(
            formats,
            ContextView::empty(),
            inject_spec(formats, cx, Map::empty(), header),
        ).baggage == cx.baggage,
{
    let carrier = inject_spec(formats, cx, Map::empty(), header);
    let back = extract_spec(formats, ContextView::empty(), carrier);
    lemma_header_names_differ();
    lemma_inject_closed_form(formats, cx, Map::empty(), header);
    lemma_extract_closed_form(formats, ContextView::empty(), carrier);
    if entries.len() == 0 {
        assert(!carrier.contains_key(baggage_name()));
    } else {
        assert(carrier[baggage_name()] == header->0);
    }
    assert(back.baggage =~= cx.baggage);
}

/// Round trip. Write a context into an empty carrier, read the carrier
/// back: trace id, span id and baggage are those of the context.
///
/// This holds for a propagator with both formats, for a context whose ids
/// are both zero or both non-zero, and for plain baggage.
pub proof fn lemma_round_trip(
    formats: Seq<Format>,
    cx: ContextView,
    entries: Seq<TextPair>,
    header: Option<Seq<char>>,
)
    requires
        formats.contains(Format::Baggage),
        formats.contains(Format::TraceContext),
        (cx.trace_id == 0) == (cx.span_id == 0),
        cx.baggage == pairs_map(entries),
        plain_baggage(entries),
        baggage_header_for(entries, header),
    ensures
        ({
            let carrier = inject_spec(formats, cx, Map::empty(), header);
            let back = extract_spec(formats, ContextView::empty(), carrier);
            &&& back.trace_id == cx.trace_id
            &&& back.span_id == cx.span_id
            &&& back.baggage == cx.baggage
        }),
{
    lemma_round_trip_ids(formats, cx, header);
    lemma_round_trip_baggage(formats, cx, entries, header);
}

/// Whether a carrier names a span: it has a `traceparent` header from
/// which a non-zero trace id and a non-zero span id are read.
pub open spec fn carries_span(carrier: Map<Seq<char>, Seq<char>>) -> bool {
    &&& carrier.contains_key(traceparent_name())
    &&& trace_fields(carrier[traceparent_name()]).0 != 0
    &&& trace_fields(carrier[traceparent_name()]).1 != 0
}

/// Parent linkage at the carrier: a carrier whose `traceparent` header is
/// the canonical text for trace id `t` and span id `s` yields a context
/// with exactly these ids, whatever else it holds.
pub proof fn lemma_extract_reads_traceparent(
    formats: Seq<Format>,
    carrier: Map<Seq<char>, Seq<char>>,
    trace_id: u128,
    span_id: u64,
    flags: u8,
)
    requires
        formats.contains(Format::TraceContext),
        trace_id != 0,
        span_id != 0,
        carrier.contains_key(traceparent_name()),
        carrier[traceparent_name()] == traceparent_text(trace_id, span_id, flags),
    ensures
        extract_spec(formats, ContextView::empty(), carrier).trace_id == trace_id,
        extract_spec(formats, ContextView::empty(), carrier).span_id == span_id,
        extract_spec(formats, ContextView::empty(), carrier).parent_span_id is None,
{
    lemma_extract_closed_form(formats, ContextView::empty(), carrier);
    lemma_traceparent_canonical(trace_id, span_id, flags);
}

/// A carrier that names no span, for want of a `traceparent` header or of
/// a valid one, yields no span: the ids stay zero.
pub proof fn lemma_extract_without_span(formats: Seq<Format>, carrier: Map<Seq<char>, Seq<char>>)
    requires
        !carries_span(carrier),
    ensures
        !extract_spec(formats, ContextView::empty(), carrier).is_valid(),
        extract_spec(formats, ContextView::empty(), carrier).trace_id == 0,
        extract_spec(formats, ContextView::empty(), carrier).span_id == 0,
{
    lemma_extract_closed_form(formats, ContextView::empty(), carrier);
}

} // verus!
