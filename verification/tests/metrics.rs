use demo_observe_rs::metrics::{MetricsCollector, COLLECT_INTERVAL_SECS};

#[test]
fn metrics_are_collected_every_ten_seconds() {
    assert_eq!(COLLECT_INTERVAL_SECS, 10);
}

#[test]
fn a_counter_is_registered_once() {
    let mut c = MetricsCollector::new();
    assert_eq!(c.len(), 0);
    assert_eq!(c.register("my_counter"), Some(0));
    assert_eq!(c.register("other"), Some(1));
    assert_eq!(c.register("my_counter"), None);
    assert_eq!(c.len(), 2);
    assert_eq!(c.find("my_counter"), Some(0));
    assert_eq!(c.find("other"), Some(1));
    assert_eq!(c.find("missing"), None);
}

#[test]
fn collect_reads_the_gains_and_resets_them() {
    let mut c = MetricsCollector::new();
    c.register("a");
    c.register("b");
    assert!(c.add(0, 1));
    assert!(c.add(0, 2));
    assert!(c.add(1, 5));
    let deltas = c.collect();
    assert_eq!(deltas.len(), 2);
    assert_eq!(deltas[0].name, "a");
    assert_eq!(deltas[0].delta, 3);
    assert_eq!(deltas[1].name, "b");
    assert_eq!(deltas[1].delta, 5);
    let deltas = c.collect();
    assert_eq!(deltas.len(), 2);
    assert_eq!(deltas[0].name, "a");
    assert_eq!(deltas[0].delta, 0);
    assert_eq!(deltas[1].delta, 0);
    assert_eq!(c.len(), 2);
}

#[test]
fn collection_goes_on_without_traffic() {
    let mut c = MetricsCollector::new();
    c.register("idle");
    for _ in 0..3 {
        let deltas = c.collect();
        assert_eq!(deltas.len(), 1);
        assert_eq!(deltas[0].delta, 0);
    }
    assert!(MetricsCollector::new().collect().is_empty());
}

#[test]
fn adding_to_no_counter_does_nothing() {
    let mut c = MetricsCollector::new();
    assert!(!c.add(0, 1));
    c.register("a");
    assert!(!c.add(1, 1));
    assert_eq!(c.collect()[0].delta, 0);
}

#[test]
fn a_gain_stops_at_the_largest_number() {
    let mut c = MetricsCollector::new();
    c.register("a");
    assert!(c.add(0, u64::MAX - 1));
    assert!(c.add(0, 1));
    assert!(c.add(0, 1));
    assert!(c.add(0, u64::MAX));
    assert_eq!(c.collect()[0].delta, u64::MAX);
    assert!(c.add(0, 4));
    assert_eq!(c.collect()[0].delta, 4);
}
