//! The header formats, and the calls into the OpenTelemetry crates that read
//! and write them. Everything in this file that is marked `external_body`
//! is believed, not proved.

use crate::hex::{all_lower_hex, hex_char, hex_text, hex_value};
use crate::text_map::{distinct_keys, pairs_map, pairs_of, TextPair};
use opentelemetry::baggage::BaggageExt;
use opentelemetry::propagation::TextMapPropagator;
use opentelemetry::trace::{SpanContext, SpanId, TraceContextExt, TraceFlags, TraceId, TraceState};
use opentelemetry::{Context, KeyValue};
use opentelemetry_sdk::propagation::{BaggagePropagator, TraceContextPropagator};
use std::collections::HashMap;
use std::str::FromStr;
use vstd::prelude::*;

verus! {

/// Name of the header that carries trace id, span id and flags.
pub open spec fn traceparent_name() -> Seq<char> {
    "traceparent"@
}

/// Name of the header that carries vendor trace state.
pub open spec fn tracestate_name() -> Seq<char> {
    "tracestate"@
}

/// Name of the header that carries baggage.
pub open spec fn baggage_name() -> Seq<char> {
    "baggage"@
}

/// The most entries a baggage header may list.
pub const MAX_BAGGAGE_ENTRIES: usize = 180;

/// One baggage entry must stay below this many bytes.
pub const MAX_ENTRY_BYTES: usize = 4096;

/// All baggage entries together may take this many bytes.
pub const MAX_BAGGAGE_BYTES: usize = 8192;

/// The `traceparent` value for a span: version `00`, the trace id in 32
/// digits, the span id in 16, and the sampled bit in two.
pub open spec fn traceparent_text(trace_id: u128, span_id: u64, flags: u8) -> Seq<char> {
    seq!['0', '0', '-'] + hex_text(trace_id as nat, 32) + seq!['-'] + hex_text(span_id as nat, 16)
        + seq!['-', '0', hex_char((flags % 2) as int)]
}

/// A `traceparent` value in exactly the form that `traceparent_text`
/// produces, naming a non-zero trace id and a non-zero span id.
pub open spec fn canonical_traceparent(t: Seq<char>) -> bool {
    &&& t.len() == 55
    &&& t[0] == '0'
    &&& t[1] == '0'
    &&& t[2] == '-'
    &&& all_lower_hex(t.subrange(3, 35))
    &&& t[35] == '-'
    &&& all_lower_hex(t.subrange(36, 52))
    &&& t[52] == '-'
    &&& t[53] == '0'
    &&& (t[54] == '0' || t[54] == '1')
    &&& 0 < hex_value(t.subrange(3, 35)) <= u128::MAX
    &&& 0 < hex_value(t.subrange(36, 52)) <= u64::MAX
}

/// Trace id, span id and flags that a canonical `traceparent` value names.
pub open spec fn canonical_fields(t: Seq<char>) -> (u128, u64, u8) {
    (
        hex_value(t.subrange(3, 35)) as u128,
        hex_value(t.subrange(36, 52)) as u64,
        if t[54] == '1' {
            1u8
        } else {
            0u8
        },
    )
}

/// What `TraceContextPropagator` reads from a `traceparent` value that is
/// not in canonical form: trace id, span id and flags, all zero where it
/// rejects the value.
pub uninterp spec fn lenient_trace_fields(traceparent: Seq<char>) -> (u128, u64, u8);

/// The `tracestate` text that `TraceState::from_str` keeps of a header
/// value, as `TraceState::header` writes it again.
pub uninterp spec fn trace_state_text(tracestate: Seq<char>) -> Seq<char>;

/// The entries that `BaggagePropagator` reads from a `baggage` value.
pub uninterp spec fn parsed_baggage(header: Seq<char>) -> Map<Seq<char>, Seq<char>>;

/// Trace id, span id and flags read from a `traceparent` value.
pub open spec fn trace_fields(traceparent: Seq<char>) -> (u128, u64, u8) {
    if canonical_traceparent(traceparent) {
        canonical_fields(traceparent)
    } else {
        lenient_trace_fields(traceparent)
    }
}

/// Text made only of visible ASCII characters other than `%`. Percent
/// encoding followed by decoding and trimming leaves such text unchanged.
pub open spec fn plain_text(t: Seq<char>) -> bool {
    forall|i: int| 0 <= i < t.len() ==> '!' <= #[trigger] t[i] <= '~' && t[i] != '%'
}

/// The characters of all keys and values together.
pub open spec fn total_text_len(s: Seq<TextPair>) -> nat
    decreases s.len(),
{
    if s.len() == 0 {
        0
    } else {
        total_text_len(s.drop_last()) + s.last().0.len() + s.last().1.len()
    }
}

/// Baggage that survives the wire unchanged: distinct plain keys, plain
/// values, and sizes within the three limits of the format.
pub open spec fn plain_baggage(s: Seq<TextPair>) -> bool {
    &&& distinct_keys(s)
    &&& s.len() <= MAX_BAGGAGE_ENTRIES
    &&& total_text_len(s) <= MAX_BAGGAGE_BYTES
    &&& forall|i: int|
        0 <= i < s.len() ==> plain_text((#[trigger] s[i]).0) && plain_text(s[i].1) && s[i].0.len()
            + s[i].1.len() < MAX_ENTRY_BYTES
}

/// What is known of the `baggage` value written for `entries`: none for no
/// entries; for plain baggage, a value that reads back as the same entries.
/// The order of the members in the value is not fixed.
pub open spec fn baggage_header_for(entries: Seq<TextPair>, header: Option<Seq<char>>) -> bool {
    &&& entries.len() == 0 ==> header is None
    &&& entries.len() > 0 && plain_baggage(entries) ==> header is Some && parsed_baggage(header->0)
        == pairs_map(entries)
}

/// An optional string as specifications see it.
pub open spec fn option_text(t: Option<String>) -> Option<Seq<char>> {
    match t {
        Some(s) => Some(s@),
        None => None,
    }
}

/// Runs `TraceContextPropagator::extract_with_context` on an empty context
/// and a carrier that holds the two given header values.
///
/// Believed: for a canonical `traceparent` the ids and the sampled bit are
/// the ones it spells out (the propagator splits at `-`, reads each part
/// as a base-sixteen number and keeps bit 0 of the flags); for any other
/// value they are a fixed function of the value, all zero where the value
/// is rejected. The trace state is what `TraceState::from_str` keeps of
/// `tracestate`, and it is kept only where the ids are both non-zero.
#[verifier::external_body]
pub(crate) fn read_trace_headers(traceparent: &str, tracestate: &str) -> (out: (u128, u64, u8, String))
    ensures
        canonical_traceparent(traceparent@) ==> (out.0, out.1, out.2) == canonical_fields(traceparent@),
        !canonical_traceparent(traceparent@) ==> (out.0, out.1, out.2) == lenient_trace_fields(
            traceparent@,
        ),
        out.0 != 0 && out.1 != 0 ==> out.3@ == trace_state_text(tracestate@),
        out.0 == 0 || out.1 == 0 ==> out.3@ == Seq::<char>::empty(),
{
    let mut carrier: HashMap<String, String> = HashMap::new();
    carrier.insert("traceparent".to_string(), traceparent.to_string());
    carrier.insert("tracestate".to_string(), tracestate.to_string());
    let cx = TraceContextPropagator::new().extract_with_context(&Context::new(), &carrier);
    let span = cx.span();
    let sc = span.span_context();
    (
        u128::from_be_bytes(sc.trace_id().to_bytes()),
        u64::from_be_bytes(sc.span_id().to_bytes()),
        sc.trace_flags().to_u8(),
        sc.trace_state().header(),
    )
}

/// Runs `TraceContextPropagator::inject_context` for a remote span context
/// with the given ids, flags and trace state, and hands back the two header
/// values that it set.
///
/// Believed: the `traceparent` value is `traceparent_text` of the ids and
/// flags (the propagator formats `00`, the trace id in 32 lower-case
/// digits, the span id in 16 and bit 0 of the flags in two, joined by
/// `-`); the `tracestate` value is what `TraceState::from_str` keeps of the
/// text.
#[verifier::external_body]
pub(crate) fn write_trace_headers(trace_id: u128, span_id: u64, flags: u8, trace_state: &str) -> (out: (
    String,
    String,
))
    requires
        trace_id != 0,
        span_id != 0,
    ensures
        out.0@ == traceparent_text(trace_id, span_id, flags),
        out.1@ == trace_state_text(trace_state@),
{
    let state = TraceState::from_str(trace_state).unwrap_or_default();
    let sc = SpanContext::new(TraceId::from(trace_id), SpanId::from(span_id), TraceFlags::new(flags), true, state);
    let cx = Context::new().with_remote_span_context(sc);
    let mut carrier: HashMap<String, String> = HashMap::new();
    TraceContextPropagator::new().inject_context(&cx, &mut carrier);
    (carrier.remove("traceparent").unwrap_or_default(), carrier.remove("tracestate").unwrap_or_default())
}

/// Runs `BaggagePropagator::extract_with_context` on an empty context and a
/// carrier that holds the given `baggage` value, and lists what it found.
///
/// Believed: the entries, taken as a map, are a fixed function of the
/// value. Their order in the list is that of a hash map and is not fixed.
#[verifier::external_body]
pub(crate) fn read_baggage_header(header: &str) -> (out: Vec<(String, String)>)
    ensures
        pairs_map(pairs_of(out@)) == parsed_baggage(header@),
{
    let mut carrier: HashMap<String, String> = HashMap::new();
    carrier.insert("baggage".to_string(), header.to_string());
    let cx = BaggagePropagator::new().extract_with_context(&Context::new(), &carrier);
    cx.baggage().iter().map(|(k, (v, _))| (k.as_str().to_string(), v.as_str().into_owned())).collect()
}

/// Runs `BaggagePropagator::inject_context` for a context with the given
/// baggage and hands back the `baggage` value, if one was set.
///
/// Believed: nothing is set for no entries; for plain baggage a value is
/// set, and `BaggagePropagator` reads the same entries back from it. The
/// encoder writes `key=value` members joined by `,`, with control
/// characters, space, `"`, `;`, `,` and `=` percent-encoded; the decoder
/// splits at `,`, `;` and `=`, percent-decodes and trims white space.
/// `Baggage` holds up to 180 entries and 8192 bytes, each entry with an
/// ASCII key and under 4096 bytes. Plain baggage passes all of these
/// unchanged, in whatever order the members are written.
#[verifier::external_body]
pub(crate) fn write_baggage_header(entries: &Vec<(String, String)>) -> (out: Option<String>)
    ensures
        baggage_header_for(pairs_of(entries@), option_text(out)),
{
    let kvs: Vec<KeyValue> = entries.iter().map(|(k, v)| KeyValue::new(k.clone(), v.clone())).collect();
    let cx = Context::new().with_baggage(kvs);
    let mut carrier: HashMap<String, String> = HashMap::new();
    BaggagePropagator::new().inject_context(&cx, &mut carrier);
    carrier.remove("baggage")
}

} // verus!
