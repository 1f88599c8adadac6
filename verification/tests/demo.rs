use demo_observe_rs::demo::{demonstrate_logging, demonstrate_metrics, demonstrate_tracing, tracing_nested, DemoStep};
use demo_observe_rs::logging::{Facade, Severity};

#[test]
fn the_nested_step_writes_one_event_in_its_own_span() {
    let events = tracing_nested();
    assert_eq!(events.len(), 1);
    assert_eq!(events[0].facade, Facade::Tracing);
    assert_eq!(events[0].level, Severity::Info);
    assert_eq!(events[0].message, "tracing nested");
    assert_eq!(events[0].spans, vec!["tracing_nested".to_string()]);
    assert!(events[0].fields.is_empty());
}

#[test]
fn the_tracing_demonstration_writes_four_events() {
    let events = demonstrate_tracing();
    assert_eq!(events.len(), 4);
    let outer = vec!["demonstrate_tracing".to_string()];

    assert_eq!(events[0].level, Severity::Info);
    assert_eq!(events[0].message, "demonstrating tracer");
    assert_eq!(events[0].spans, outer);
    assert!(events[0].fields.is_empty());

    assert_eq!(events[1].level, Severity::Debug);
    assert_eq!(events[1].message, "hello! I'm gonna shave a yak.");
    assert_eq!(events[1].spans, outer);
    assert_eq!(events[1].fields, vec![("excitement".to_string(), "yay!".to_string())]);

    assert_eq!(events[2].level, Severity::Info);
    assert_eq!(events[2].message, "tracing nested");
    assert_eq!(events[2].spans, vec!["demonstrate_tracing".to_string(), "tracing_nested".to_string()]);

    assert_eq!(events[3].level, Severity::Info);
    assert_eq!(events[3].message, "we are done running the nested call");
    assert_eq!(events[3].spans, outer);

    for event in &events {
        assert_eq!(event.facade, Facade::Tracing);
    }
}

#[test]
fn the_logging_demonstration_writes_once_through_each_facade() {
    let events = demonstrate_logging("SystemTime { tv_sec: 1, tv_nsec: 2 }");
    assert_eq!(events.len(), 2);
    assert_eq!(events[0].facade, Facade::Log);
    assert_eq!(events[1].facade, Facade::Tracing);
    for event in &events {
        assert_eq!(event.level, Severity::Info);
        assert_eq!(event.message, "we are running hello world SystemTime { tv_sec: 1, tv_nsec: 2 }");
        assert!(event.spans.is_empty());
        assert!(event.fields.is_empty());
    }
    let events = demonstrate_logging("");
    assert_eq!(events[0].message, "we are running hello world ");
}

#[test]
fn the_metrics_demonstration_runs_four_rounds() {
    let steps = demonstrate_metrics();
    assert_eq!(steps.len(), 16);
    for round in 0..4 {
        match &steps[4 * round] {
            DemoStep::Emit(event) => {
                assert_eq!(event.facade, Facade::Log);
                assert_eq!(event.level, Severity::Info);
                assert_eq!(event.message, "incrementing counter with 1");
            }
            other => panic!("unexpected step {:?}", other),
        }
        match &steps[4 * round + 1] {
            DemoStep::Emit(event) => {
                assert_eq!(event.facade, Facade::Tracing);
                assert_eq!(event.message, "incrementing counter with 1");
            }
            other => panic!("unexpected step {:?}", other),
        }
        match &steps[4 * round + 2] {
            DemoStep::Add { counter, amount } => {
                assert_eq!(counter, "my_counter");
                assert_eq!(*amount, 1);
            }
            other => panic!("unexpected step {:?}", other),
        }
        assert!(matches!(steps[4 * round + 3], DemoStep::Sleep(5)));
    }
}
