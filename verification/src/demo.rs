//! A short walk through the three signals: what a demonstration run
//! writes, counts and waits for. The functions here decide; whoever runs
//! them hands the events to the facades and performs the waits.

use crate::logging::{enter_span, events_of, plain_event, within_span, EventView, Facade, LogEvent, Severity};
use vstd::prelude::*;
use vstd::string::StringExecFns;

verus! {

/// What the nested step of the tracing demonstration writes.
pub open spec fn nested_events() -> Seq<EventView> {
    within_span("tracing_nested"@, seq![plain_event(Facade::Tracing, Severity::Info, "tracing nested"@)])
}

/// What the tracing demonstration writes before it enters the nested step.
pub open spec fn opening_events() -> Seq<EventView> {
    seq![
        plain_event(Facade::Tracing, Severity::Info, "demonstrating tracer"@),
        EventView {
            fields: seq![("excitement"@, "yay!"@)],
            ..plain_event(Facade::Tracing, Severity::Debug, "hello! I'm gonna shave a yak."@)
        },
    ]
}

/// What the tracing demonstration writes after the nested step.
pub open spec fn closing_events() -> Seq<EventView> {
    seq![plain_event(Facade::Tracing, Severity::Info, "we are done running the nested call"@)]
}

/// Everything the tracing demonstration writes, in order, each event
/// inside the span of the function that wrote it.
pub open spec fn tracing_events() -> Seq<EventView> {
    within_span("demonstrate_tracing"@, opening_events() + nested_events() + closing_events())
}

/// The message of the logging demonstration for a given time text.
pub open spec fn logging_message(now: Seq<char>) -> Seq<char> {
    "we are running hello world "@ + now
}

/// What the logging demonstration writes: the same message once through
/// each facade.
pub open spec fn logging_events(now: Seq<char>) -> Seq<EventView> {
    seq![
        plain_event(Facade::Log, Severity::Info, logging_message(now)),
        plain_event(Facade::Tracing, Severity::Info, logging_message(now)),
    ]
}

/// The nested step: one event inside the span `tracing_nested`.
pub fn tracing_nested() -> (events: Vec<LogEvent>)
    ensures
        events_of(events@) == nested_events(),
{
    let mut written: Vec<LogEvent> = Vec::new();
    written.push(LogEvent::new(Facade::Tracing, Severity::Info, "tracing nested"));
    enter_span("tracing_nested", &written)
}

/// The tracing demonstration: two events, the nested step, one more
/// event, all inside the span `demonstrate_tracing`.
pub fn demonstrate_tracing() -> (events: Vec<LogEvent>)
    ensures
        events_of(events@) == tracing_events(),
{
    let mut written: Vec<LogEvent> = Vec::new();
    written.push(LogEvent::new(Facade::Tracing, Severity::Info, "demonstrating tracer"));
    written.push(
        LogEvent::new(Facade::Tracing, Severity::Debug, "hello! I'm gonna shave a yak.").with_field(
            "excitement",
            "yay!",
        ),
    );
    let mut nested = tracing_nested();
    written.append(&mut nested);
    written.push(LogEvent::new(Facade::Tracing, Severity::Info, "we are done running the nested call"));
    enter_span("demonstrate_tracing", &written)
}

/// The logging demonstration. `now` is the current time as text.
pub fn demonstrate_logging(now: &str) -> (events: Vec<LogEvent>)
    ensures
        events_of(events@) == logging_events(now@),
{
    let mut message = "we are running hello world ".to_owned();
    message.append(now);
    let mut written: Vec<LogEvent> = Vec::new();
    written.push(LogEvent::new(Facade::Log, Severity::Info, message.as_str()));
    written.push(LogEvent::new(Facade::Tracing, Severity::Info, message.as_str()));
    written
}

/// One step of the metrics demonstration.
#[derive(Debug)]
pub enum DemoStep {
    /// Write this event.
    Emit(LogEvent),
    /// Add `amount` to the counter named `counter`.
    Add { counter: String, amount: u64 },
    /// Wait this many seconds.
    Sleep(u64),
}

/// A step as specifications see it.
pub enum StepView {
    Emit(EventView),
    Add { counter: Seq<char>, amount: u64 },
    Sleep(u64),
}

impl View for DemoStep {
    type V = StepView;

    open spec fn view(&self) -> StepView {
        match self {
            DemoStep::Emit(event) => StepView::Emit(event@),
            DemoStep::Add { counter, amount } => StepView::Add { counter: counter@, amount: *amount },
            DemoStep::Sleep(seconds) => StepView::Sleep(*seconds),
        }
    }
}

/// The steps of a list, each by its view.
pub open spec fn steps_of(v: Seq<DemoStep>) -> Seq<StepView> {
    v.map_values(|s: DemoStep| s@)
}

/// One round of the metrics demonstration: the message through both
/// facades, one on the counter `my_counter`, five seconds of rest.
pub open spec fn metrics_round() -> Seq<StepView> {
    seq![
        StepView::Emit(plain_event(Facade::Log, Severity::Info, "incrementing counter with 1"@)),
        StepView::Emit(plain_event(Facade::Tracing, Severity::Info, "incrementing counter with 1"@)),
        StepView::Add { counter: "my_counter"@, amount: 1 },
        StepView::Sleep(5),
    ]
}

/// `count` rounds, one after the other.
pub open spec fn metrics_rounds(count: nat) -> Seq<StepView>
    decreases count,
{
    if count == 0 {
        Seq::empty()
    } else {
        metrics_rounds((count - 1) as nat) + metrics_round()
    }
}

/// The metrics demonstration: four rounds.
pub fn demonstrate_metrics() -> (steps: Vec<DemoStep>)
    ensures
        steps_of(steps@) == metrics_rounds(4),
{
    let mut steps: Vec<DemoStep> = Vec::new();
    let mut round: u8 = 0;
    while round < 4
        invariant
            round <= 4,
            steps_of(steps@) == metrics_rounds(round as nat),
        decreases 4 - round,
    {
        steps.push(DemoStep::Emit(LogEvent::new(Facade::Log, Severity::Info, "incrementing counter with 1")));
        steps.push(DemoStep::Emit(LogEvent::new(Facade::Tracing, Severity::Info, "incrementing counter with 1")));
        steps.push(DemoStep::Add { counter: "my_counter".to_owned(), amount: 1 });
        steps.push(DemoStep::Sleep(5));
        round += 1;
    }
    steps
}

} // verus!
