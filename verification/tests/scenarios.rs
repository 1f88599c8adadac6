use demo_observe_rs::export::{BatchPolicy, Offer};
use demo_observe_rs::propagation::Propagator;
use demo_observe_rs::service::{error, health, root, root_request, Response};
use demo_observe_rs::settings::Settings;
use demo_observe_rs::span::{build_otel_trace_layer, Completion, RequestTrace, Span, SpanStatus, TraceLayer};
use demo_observe_rs::telemetry::{ExporterState, ProviderConfig, SignalKind, Telemetry};
use demo_observe_rs::text_map::TextMap;

struct Service {
    telemetry: Telemetry,
    layer: TraceLayer,
    settings: Settings,
    clock: u64,
    outbound: Vec<TextMap>,
}

fn service() -> Service {
    let mut telemetry = Telemetry::new();
    let config = ProviderConfig {
        endpoint: "http://localhost:4317".to_string(),
        service_name: "demo-observe-rs".to_string(),
        policy: BatchPolicy::standard(),
        min_severity: None,
    };
    telemetry.init(SignalKind::Trace, &config, ExporterState::Ready).unwrap();
    telemetry.init(SignalKind::Log, &config, ExporterState::Ready).unwrap();
    telemetry.init(SignalKind::Metric, &config, ExporterState::Ready).unwrap();
    Service {
        telemetry,
        layer: build_otel_trace_layer(Propagator::standard()),
        settings: Settings::standard(),
        clock: 0,
        outbound: Vec::new(),
    }
}

fn serve(service: &mut Service, path: &str, headers: &TextMap) -> Response {
    service.clock += 1;
    let state: RequestTrace = service.layer.make_span("GET", path, headers, service.clock);
    let current = state.current().unwrap();
    let response = match path {
        "/health" => health(),
        "/error" => error(),
        _ => {
            let request = root_request(&service.settings, &service.layer.propagator, &current);
            assert_eq!(request.url, "http://localhost:3000/health");
            let downstream = serve(service, "/health", &request.headers);
            service.outbound.push(request.headers);
            let (response, events) = root(Some(downstream.body.as_str()));
            for event in &events {
                service.telemetry.log(event, Some(&current));
            }
            response
        }
    };
    service.clock += 1;
    let state = service.layer.on_completion(state, Completion::Responded(response.status), service.clock);
    let span = state.finish().unwrap();
    assert_eq!(service.telemetry.record_span(span), Some(Offer::Accepted));
    response
}

fn recorded(service: &mut Service) -> Vec<Span> {
    service.telemetry.shutdown().spans
}

#[test]
fn health_without_headers_records_one_root_span() {
    let mut s = service();
    let response = serve(&mut s, "/health", &TextMap::new());
    assert_eq!(response.body, "UP");
    assert_eq!(response.status, 200);
    let spans = recorded(&mut s);
    assert_eq!(spans.len(), 1);
    assert_eq!(spans[0].name, "GET /health");
    assert_eq!(spans[0].context.parent_span_id, None);
    assert_eq!(spans[0].status, SpanStatus::Success);
    assert!(spans[0].is_closed());
}

#[test]
fn root_with_a_traceparent_hands_the_trace_on() {
    let mut s = service();
    let mut headers = TextMap::new();
    headers.set(
        "traceparent".to_string(),
        "00-0af7651916cd43dd8448eb211c80319c-b7ad6b7169203331-01".to_string(),
    );
    let response = serve(&mut s, "/", &headers);
    assert_eq!(response.body, "root");
    assert_eq!(response.status, 200);

    let spans = recorded(&mut s);
    assert_eq!(spans.len(), 2);
    let inner = &spans[0];
    let outer = &spans[1];
    assert_eq!(outer.name, "GET /");
    assert_eq!(outer.context.trace_id, 0x0af7651916cd43dd8448eb211c80319c);
    assert_eq!(outer.context.parent_span_id, Some(0xb7ad6b7169203331));
    assert_ne!(outer.context.span_id, 0xb7ad6b7169203331);

    assert_eq!(s.outbound.len(), 1);
    let sent = s.outbound[0].get("traceparent").unwrap();
    assert_eq!(sent.len(), 55);
    assert_eq!(&sent[..36], "00-0af7651916cd43dd8448eb211c80319c-");
    assert_eq!(&sent[36..52], format!("{:016x}", outer.context.span_id));
    assert_eq!(&sent[52..], "-01");

    assert_eq!(inner.name, "GET /health");
    assert_eq!(inner.context.trace_id, outer.context.trace_id);
    assert_eq!(inner.context.parent_span_id, Some(outer.context.span_id));

    let logs = s.telemetry.shutdown().logs;
    assert!(logs.is_empty());
}

#[test]
fn root_logs_what_it_received_inside_its_span() {
    let mut s = service();
    serve(&mut s, "/", &TextMap::new());
    let report = s.telemetry.shutdown();
    assert_eq!(report.logs.len(), 1);
    assert_eq!(report.logs[0].message, "we received UP");
    let outer = &report.spans[1];
    assert_eq!(report.logs[0].trace_id, Some(outer.context.trace_id));
    assert_eq!(report.logs[0].span_id, Some(outer.context.span_id));
}

#[test]
fn error_records_a_span_with_error_status() {
    let mut s = service();
    let response = serve(&mut s, "/error", &TextMap::new());
    assert_eq!(response.status, 503);
    let spans = recorded(&mut s);
    assert_eq!(spans.len(), 1);
    assert_eq!(spans[0].name, "GET /error");
    assert_eq!(spans[0].status, SpanStatus::Error);
}

#[test]
fn a_hundred_requests_with_distinct_traces_stay_apart() {
    let mut s = service();
    let mut open = Vec::new();
    for i in 1..=100u128 {
        let mut headers = TextMap::new();
        headers.set("traceparent".to_string(), format!("00-{:032x}-{:016x}-01", i, 1000 + i));
        open.push(s.layer.make_span("GET", "/health", &headers, 0));
    }
    for state in open.into_iter().rev() {
        let state = s.layer.on_completion(state, Completion::Responded(200), 1);
        assert_eq!(s.telemetry.record_span(state.finish().unwrap()), Some(Offer::Accepted));
    }
    let mut spans = recorded(&mut s);
    assert_eq!(spans.len(), 100);
    spans.sort_by_key(|span| span.context.trace_id);
    for (i, span) in spans.iter().enumerate() {
        let n = i as u128 + 1;
        assert_eq!(span.context.trace_id, n);
        assert_eq!(span.context.parent_span_id, Some(1000 + n as u64));
    }
    let mut span_ids: Vec<u64> = spans.iter().map(|span| span.context.span_id).collect();
    span_ids.sort();
    span_ids.dedup();
    assert_eq!(span_ids.len(), 100);
}

#[test]
fn what_was_recorded_before_the_shutdown_is_flushed_by_it() {
    let mut s = service();
    for _ in 0..10 {
        serve(&mut s, "/health", &TextMap::new());
    }
    let exported = s.telemetry.export_spans();
    assert_eq!(exported.len(), 10);
    for _ in 0..5 {
        serve(&mut s, "/error", &TextMap::new());
    }
    let report = s.telemetry.shutdown();
    assert_eq!(report.spans.len(), 5);
    assert!(s.telemetry.shutdown().spans.is_empty());
    assert_eq!(s.telemetry.dropped(SignalKind::Trace), Some(0));
}
