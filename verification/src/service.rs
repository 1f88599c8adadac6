//! The three endpoints of the service. They exist to exercise the
//! middleware: one answers at once, one always fails, and one calls the
//! service itself before it answers.

use crate::context::TelemetryContext;
use crate::logging::{events_of, plain_event, EventView, Facade, LogEvent, Severity};
use crate::propagation::{inject_spec, Format, Propagator};
use crate::settings::{health_url_text, Settings};
use crate::span::build_request_headers;
use crate::text_map::TextMap;
use crate::wire::baggage_header_for;
use vstd::prelude::*;
use vstd::string::StringExecFns;

verus! {

/// Status of an answer that went well.
pub const STATUS_OK: u16 = 200;

/// Status of an answer to a request that failed inside the service.
pub const STATUS_INTERNAL_SERVER_ERROR: u16 = 500;

/// Status of an answer from a service that is not available.
pub const STATUS_SERVICE_UNAVAILABLE: u16 = 503;

/// What every handler of the service can reach.
#[derive(Debug)]
pub struct ServerState {
    pub settings: Settings,
}

impl Clone for ServerState {
    fn clone(&self) -> (s: Self)
        ensures
            s.settings.host@ == self.settings.host@,
            s.settings.port == self.settings.port,
    {
        ServerState { settings: self.settings.clone() }
    }
}

/// An answer: HTTP status code and body.
#[derive(Debug)]
pub struct Response {
    pub status: u16,
    pub body: String,
}

/// A call that a handler wants made before it can answer.
pub struct OutboundRequest {
    pub url: String,
    pub headers: TextMap,
}

/// The health endpoint: status 200, body `UP`.
pub fn health() -> (r: Response)
    ensures
        r.status == 200,
        r.body@ == "UP"@,
{
    Response { status: STATUS_OK, body: "UP".to_owned() }
}

/// The endpoint that always fails: status 503, empty body.
pub fn error() -> (r: Response)
    ensures
        r.status == 503,
        r.body@ == Seq::<char>::empty(),
{
    Response { status: STATUS_SERVICE_UNAVAILABLE, body: String::new() }
}

/// The call that the root endpoint makes: to the health endpoint of this
/// service, with the headers that carry the current context on.
pub fn root_request(settings: &Settings, propagator: &Propagator, current: &TelemetryContext) -> (request:
    OutboundRequest)
    ensures
        request.url@ == health_url_text(settings.port as int),
        exists|h: Option<Seq<char>>|
            {
                &&& propagator.formats().contains(Format::Baggage) ==> baggage_header_for(
                    current.baggage.pairs(),
                    h,
                )
                &&& request.headers@ == #[trigger] inject_spec(propagator.formats(), current@, Map::empty(), h)
            },
{
    OutboundRequest { url: settings.health_url(), headers: build_request_headers(propagator, current) }
}

/// The message that the root endpoint logs about the body it received.
pub open spec fn received_message(body: Seq<char>) -> Seq<char> {
    "we received "@ + body
}

/// What the root endpoint logs: one event where it received a body.
pub open spec fn root_events(downstream: Option<Seq<char>>) -> Seq<EventView> {
    match downstream {
        Some(body) => seq![plain_event(Facade::Tracing, Severity::Info, received_message(body))],
        None => Seq::empty(),
    }
}

/// The view of an optional string slice.
pub open spec fn body_view(downstream: Option<&str>) -> Option<Seq<char>> {
    match downstream {
        Some(body) => Some(body@),
        None => None,
    }
}

/// The root endpoint, once its call has come back. `downstream` is the
/// body that the call returned, or none where the call or the reading of
/// its body failed. With a body the answer is status 200 and `root`;
/// without one it is status 500.
pub fn root(downstream: Option<&str>) -> (out: (Response, Vec<LogEvent>))
    ensures
        downstream is Some ==> out.0.status == 200 && out.0.body@ == "root"@,
        downstream is None ==> out.0.status == 500 && out.0.body@ == Seq::<char>::empty(),
        events_of(out.1@) == root_events(body_view(downstream)),
{
    let mut events: Vec<LogEvent> = Vec::new();
    match downstream {
        Some(body) => {
            let mut message = "we received ".to_owned();
            message.append(body);
            events.push(LogEvent::new(Facade::Tracing, Severity::Info, message.as_str()));
            (Response { status: STATUS_OK, body: "root".to_owned() }, events)
        },
        None => {
            (Response { status: STATUS_INTERNAL_SERVER_ERROR, body: String::new() }, events)
        },
    }
}

} // verus!
