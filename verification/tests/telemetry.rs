use demo_observe_rs::context::TelemetryContext;
use demo_observe_rs::export::{BatchPolicy, Offer};
use demo_observe_rs::logging::{Facade, LogEvent, Severity};
use demo_observe_rs::metrics::MetricsCollector;
use demo_observe_rs::propagation::Format;
use demo_observe_rs::span::{close_span, open_span, Completion};
use demo_observe_rs::telemetry::{
    init_logger_provider, init_meter_provider, init_tracer_provider, BootstrapError, ExporterState, ProviderConfig,
    SignalKind, Telemetry,
};

fn config(min_severity: Option<&str>) -> ProviderConfig {
    ProviderConfig {
        endpoint: "http://192.168.1.205:4317".to_string(),
        service_name: "demo-observe-rs".to_string(),
        policy: BatchPolicy::standard(),
        min_severity: min_severity.map(|s| s.to_string()),
    }
}

#[test]
fn a_new_process_has_no_provider() {
    let t = Telemetry::new();
    assert_eq!(t.pending(SignalKind::Trace), None);
    assert_eq!(t.dropped(SignalKind::Log), None);
    assert_eq!(t.policy(SignalKind::Metric), None);
    assert_eq!(t.is_shut_down(SignalKind::Trace), None);
    assert!(!t.has(SignalKind::Trace));
    assert!(!t.has(SignalKind::Log));
    assert!(!t.has(SignalKind::Metric));
    assert!(t.least_severity().is_none());
}

#[test]
fn each_kind_is_made_once() {
    let mut t = Telemetry::new();
    for kind in [SignalKind::Trace, SignalKind::Log, SignalKind::Metric] {
        assert!(t.init(kind, &config(None), ExporterState::Ready).is_ok());
        assert!(t.has(kind));
        let again = t.init(kind, &config(None), ExporterState::Ready);
        assert!(matches!(again, Err(BootstrapError::AlreadyInstalled(k)) if k == kind));
    }
}

#[test]
fn a_duplicate_is_refused_before_anything_else_is_looked_at() {
    let mut t = Telemetry::new();
    t.init(SignalKind::Log, &config(None), ExporterState::Ready).unwrap();
    let bad = ProviderConfig {
        policy: BatchPolicy { capacity: 0, max_batch: 0, interval_secs: 0 },
        ..config(Some("loud"))
    };
    let again = t.init(SignalKind::Log, &bad, ExporterState::Unreachable);
    assert!(matches!(again, Err(BootstrapError::AlreadyInstalled(SignalKind::Log))));
    assert_eq!(t.least_severity().unwrap(), Severity::Info);
}

#[test]
fn a_provider_survives_its_shutdown_as_installed() {
    let mut t = Telemetry::new();
    t.init(SignalKind::Trace, &config(None), ExporterState::Ready).unwrap();
    t.shutdown();
    let again = t.init(SignalKind::Trace, &config(None), ExporterState::Ready);
    assert!(matches!(again, Err(BootstrapError::AlreadyInstalled(SignalKind::Trace))));
}

#[test]
fn an_exporter_that_is_not_ready_ends_the_startup() {
    let mut t = Telemetry::new();
    let out = t.init(SignalKind::Trace, &config(None), ExporterState::MalformedEndpoint);
    assert!(matches!(out, Err(BootstrapError::MalformedEndpoint)));
    let out = t.init(SignalKind::Metric, &config(None), ExporterState::Unreachable);
    assert!(matches!(out, Err(BootstrapError::Unreachable)));
    assert!(!t.has(SignalKind::Trace));
    assert!(!t.has(SignalKind::Metric));
    let out = t.init(SignalKind::Log, &config(Some("loud")), ExporterState::Unreachable);
    assert!(matches!(out, Err(BootstrapError::Unreachable)));
}

#[test]
fn an_unusable_policy_ends_the_startup() {
    let mut t = Telemetry::new();
    let bad = ProviderConfig { policy: BatchPolicy { capacity: 4, max_batch: 5, interval_secs: 1 }, ..config(None) };
    assert!(matches!(t.init(SignalKind::Trace, &bad, ExporterState::Ready), Err(BootstrapError::UnusablePolicy)));
    let bad = ProviderConfig { policy: BatchPolicy { capacity: 4, max_batch: 0, interval_secs: 1 }, ..config(None) };
    assert!(matches!(t.init(SignalKind::Log, &bad, ExporterState::Ready), Err(BootstrapError::UnusablePolicy)));
    assert!(!t.has(SignalKind::Trace));
    assert!(!t.has(SignalKind::Log));
}

#[test]
fn an_invalid_severity_ends_the_startup_of_the_log_provider_only() {
    let mut t = Telemetry::new();
    match t.init(SignalKind::Log, &config(Some("loud")), ExporterState::Ready) {
        Err(BootstrapError::InvalidSeverity(text)) => assert_eq!(text, "loud"),
        other => panic!("unexpected {:?}", other),
    }
    assert!(!t.has(SignalKind::Log));
    assert!(t.least_severity().is_none());
    assert!(t.init(SignalKind::Trace, &config(Some("loud")), ExporterState::Ready).is_ok());
    assert!(t.init(SignalKind::Metric, &config(Some("loud")), ExporterState::Ready).is_ok());
    assert!(t.init(SignalKind::Log, &config(Some("WARN")), ExporterState::Ready).is_ok());
    assert_eq!(t.least_severity().unwrap(), Severity::Warn);
}

#[test]
fn the_tracer_comes_with_the_standard_propagator() {
    let mut t = Telemetry::new();
    let propagator = init_tracer_provider(&mut t, &config(None), ExporterState::Ready).unwrap();
    assert!(propagator.has(Format::Baggage));
    assert!(propagator.has(Format::TraceContext));
    assert!(t.has(SignalKind::Trace));
    assert_eq!(t.policy(SignalKind::Trace).unwrap(), BatchPolicy::standard());
    assert!(matches!(
        init_tracer_provider(&mut t, &config(None), ExporterState::Ready),
        Err(BootstrapError::AlreadyInstalled(SignalKind::Trace))
    ));
}

#[test]
fn the_logger_comes_with_its_bridge() {
    let mut t = Telemetry::new();
    let bridge = init_logger_provider(&mut t, &config(Some("debug")), ExporterState::Ready).unwrap();
    assert_eq!(bridge.least, Severity::Debug);
    assert!(t.has(SignalKind::Log));
    assert!(matches!(
        init_logger_provider(&mut t, &config(None), ExporterState::Ready),
        Err(BootstrapError::AlreadyInstalled(SignalKind::Log))
    ));
    let mut t = Telemetry::new();
    assert!(matches!(
        init_logger_provider(&mut t, &config(Some("verbose")), ExporterState::Ready),
        Err(BootstrapError::InvalidSeverity(_))
    ));
}

#[test]
fn the_meter_is_read_every_ten_seconds() {
    let mut t = Telemetry::new();
    init_meter_provider(&mut t, &config(Some("loud")), ExporterState::Ready).unwrap();
    assert_eq!(t.policy(SignalKind::Metric).unwrap(), BatchPolicy::for_metrics());
    assert!(matches!(
        init_meter_provider(&mut t, &config(None), ExporterState::Ready),
        Err(BootstrapError::AlreadyInstalled(SignalKind::Metric))
    ));
}

#[test]
fn spans_go_to_the_trace_provider() {
    let mut t = Telemetry::new();
    let span = close_span(open_span(TelemetryContext::empty(), "GET", "/", 1, 2, 0), Completion::Responded(200), 1);
    assert_eq!(t.record_span(span), None);
    t.init(SignalKind::Trace, &config(None), ExporterState::Ready).unwrap();
    let span = close_span(open_span(TelemetryContext::empty(), "GET", "/", 1, 2, 0), Completion::Responded(200), 1);
    assert_eq!(t.record_span(span), Some(Offer::Accepted));
    assert_eq!(t.pending(SignalKind::Trace), Some(1));
}

#[test]
fn events_go_through_the_bridge_to_the_log_provider() {
    let mut t = Telemetry::new();
    let event = LogEvent::new(Facade::Log, Severity::Info, "hello");
    assert_eq!(t.log(&event, None), None);
    t.init(SignalKind::Log, &config(None), ExporterState::Ready).unwrap();
    assert_eq!(t.log(&event, None), Some(Offer::Accepted));
    let quiet = LogEvent::new(Facade::Log, Severity::Debug, "psst");
    assert_eq!(t.log(&quiet, None), None);
    let scope = TelemetryContext::remote(10, 20, 1);
    assert_eq!(t.log(&LogEvent::new(Facade::Log, Severity::Error, "bad"), Some(&scope)), Some(Offer::Accepted));
    let batch = t.export_logs();
    assert_eq!(batch.len(), 2);
    assert_eq!(batch[0].message, "hello");
    assert_eq!(batch[0].trace_id, None);
    assert_eq!(batch[1].message, "bad");
    assert_eq!(batch[1].trace_id, Some(10));
    assert_eq!(batch[1].span_id, Some(20));
}

#[test]
fn shutdown_flushes_every_provider() {
    let mut t = Telemetry::new();
    for kind in [SignalKind::Trace, SignalKind::Log, SignalKind::Metric] {
        t.init(kind, &config(None), ExporterState::Ready).unwrap();
    }
    for i in 0..3u64 {
        let span = close_span(
            open_span(TelemetryContext::empty(), "GET", "/", 1, i + 1, 0),
            Completion::Responded(200),
            1,
        );
        t.record_span(span);
    }
    t.log(&LogEvent::new(Facade::Log, Severity::Info, "one"), None);
    t.log(&LogEvent::new(Facade::Log, Severity::Warn, "two"), None);
    let report = t.shutdown();
    assert_eq!(report.spans.len(), 3);
    assert_eq!(report.spans[0].context.span_id, 1);
    assert_eq!(report.spans[1].context.span_id, 2);
    assert_eq!(report.spans[2].context.span_id, 3);
    assert_eq!(report.logs.len(), 2);
    assert_eq!(report.logs[0].message, "one");
    assert_eq!(report.logs[1].message, "two");
    assert!(report.metrics.is_empty());
    assert_eq!(t.is_shut_down(SignalKind::Trace), Some(true));
    assert_eq!(t.is_shut_down(SignalKind::Log), Some(true));
    assert_eq!(t.is_shut_down(SignalKind::Metric), Some(true));
}

#[test]
fn a_second_shutdown_hands_out_nothing() {
    let mut t = Telemetry::new();
    t.init(SignalKind::Trace, &config(None), ExporterState::Ready).unwrap();
    t.init(SignalKind::Log, &config(None), ExporterState::Ready).unwrap();
    let span = close_span(open_span(TelemetryContext::empty(), "GET", "/", 1, 2, 0), Completion::Responded(200), 1);
    t.record_span(span);
    t.log(&LogEvent::new(Facade::Log, Severity::Info, "one"), None);
    let first = t.shutdown();
    assert_eq!(first.spans.len(), 1);
    assert_eq!(first.logs.len(), 1);
    let second = t.shutdown();
    assert!(second.spans.is_empty());
    assert!(second.logs.is_empty());
    assert!(second.metrics.is_empty());
    assert_eq!(t.dropped(SignalKind::Trace), Some(0));
}

#[test]
fn records_offered_after_shutdown_are_lost_and_counted() {
    let mut t = Telemetry::new();
    t.init(SignalKind::Trace, &config(None), ExporterState::Ready).unwrap();
    t.init(SignalKind::Log, &config(None), ExporterState::Ready).unwrap();
    t.shutdown();
    let span = close_span(open_span(TelemetryContext::empty(), "GET", "/", 1, 2, 0), Completion::Responded(200), 1);
    assert_eq!(t.record_span(span), Some(Offer::DroppedShutDown));
    assert_eq!(t.log(&LogEvent::new(Facade::Log, Severity::Info, "late"), None), Some(Offer::DroppedShutDown));
    assert_eq!(t.dropped(SignalKind::Trace), Some(1));
    assert_eq!(t.dropped(SignalKind::Log), Some(1));
    assert!(t.shutdown().spans.is_empty());
}

#[test]
fn shutdown_of_a_process_without_providers_is_empty() {
    let mut t = Telemetry::new();
    let report = t.shutdown();
    assert!(report.spans.is_empty() && report.logs.is_empty() && report.metrics.is_empty());
    assert!(!t.has(SignalKind::Trace));
}

#[test]
fn collected_metrics_go_to_the_metric_provider() {
    let mut collector = MetricsCollector::new();
    collector.register("requests");
    collector.register("errors");
    collector.add(0, 3);

    let mut t = Telemetry::new();
    assert_eq!(t.collect_metrics(&mut collector), None);
    let deltas = collector.collect();
    assert_eq!(deltas[0].delta, 3);
    collector.add(0, 4);
    collector.add(1, 1);

    t.init(SignalKind::Metric, &config(None), ExporterState::Ready).unwrap();
    assert_eq!(t.collect_metrics(&mut collector), Some(2));
    assert_eq!(t.collect_metrics(&mut collector), Some(2));
    let batch = t.export_metrics();
    assert_eq!(batch.len(), 4);
    assert_eq!(batch[0].name, "requests");
    assert_eq!(batch[0].delta, 4);
    assert_eq!(batch[1].name, "errors");
    assert_eq!(batch[1].delta, 1);
    assert_eq!(batch[2].delta, 0);
    assert_eq!(batch[3].delta, 0);

    collector.add(1, 9);
    t.shutdown();
    assert_eq!(t.collect_metrics(&mut collector), Some(0));
    assert_eq!(t.dropped(SignalKind::Metric), Some(2));
    assert_eq!(collector.collect()[1].delta, 0);
}

#[test]
fn a_full_metric_queue_takes_what_fits() {
    let mut collector = MetricsCollector::new();
    for name in ["a", "b", "c"] {
        collector.register(name);
    }
    let mut t = Telemetry::new();
    let small = ProviderConfig { policy: BatchPolicy { capacity: 2, max_batch: 2, interval_secs: 1 }, ..config(None) };
    t.init(SignalKind::Metric, &small, ExporterState::Ready).unwrap();
    assert_eq!(t.collect_metrics(&mut collector), Some(2));
    assert_eq!(t.dropped(SignalKind::Metric), Some(1));
    assert_eq!(t.policy(SignalKind::Metric).unwrap().interval_secs, 1);
}

#[test]
fn an_exporter_that_cannot_be_built_has_a_malformed_endpoint() {
    assert_eq!(ExporterState::of_build(true), ExporterState::Ready);
    assert_eq!(ExporterState::of_build(false), ExporterState::MalformedEndpoint);
}
