use demo_observe_rs::context::TelemetryContext;
use demo_observe_rs::logging::{Facade, Severity};
use demo_observe_rs::propagation::Propagator;
use demo_observe_rs::service::{
    error, health, root, root_request, STATUS_INTERNAL_SERVER_ERROR, STATUS_OK, STATUS_SERVICE_UNAVAILABLE,
};
use demo_observe_rs::settings::Settings;

#[test]
fn the_status_codes() {
    assert_eq!(STATUS_OK, 200);
    assert_eq!(STATUS_INTERNAL_SERVER_ERROR, 500);
    assert_eq!(STATUS_SERVICE_UNAVAILABLE, 503);
}

#[test]
fn health_answers_up() {
    let r = health();
    assert_eq!(r.status, 200);
    assert_eq!(r.body, "UP");
}

#[test]
fn error_answers_503() {
    let r = error();
    assert_eq!(r.status, 503);
    assert_eq!(r.body, "");
}

#[test]
fn root_calls_the_health_endpoint_with_the_current_context() {
    let settings = Settings { host: "0.0.0.0".to_string(), port: 3000 };
    let current = TelemetryContext::remote(0xaa, 0xbb, 1).child(0xcc);
    let request = root_request(&settings, &Propagator::standard(), &current);
    assert_eq!(request.url, "http://localhost:3000/health");
    assert_eq!(
        request.headers.get("traceparent"),
        Some("00-000000000000000000000000000000aa-00000000000000cc-01".to_string())
    );
}

#[test]
fn root_answers_root_when_the_call_came_back() {
    let (response, events) = root(Some("UP"));
    assert_eq!(response.status, 200);
    assert_eq!(response.body, "root");
    assert_eq!(events.len(), 1);
    assert_eq!(events[0].facade, Facade::Tracing);
    assert_eq!(events[0].level, Severity::Info);
    assert_eq!(events[0].message, "we received UP");
    let (response, events) = root(Some(""));
    assert_eq!(response.status, 200);
    assert_eq!(events[0].message, "we received ");
}

#[test]
fn root_answers_500_when_the_call_failed() {
    let (response, events) = root(None);
    assert_eq!(response.status, 500);
    assert_eq!(response.body, "");
    assert!(events.is_empty());
}
