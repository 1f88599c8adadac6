use demo_observe_rs::shutdown::{
    decide, Action, Cause, Coordinator, Event, Phase, FLUSH_TIMEOUT_SECS, GRACE_PERIOD_SECS,
};
use demo_observe_rs::telemetry::SignalKind;

fn run(events: &[Event]) -> (Coordinator, Vec<Action>, Vec<bool>) {
    let mut c = Coordinator::new();
    let mut actions = Vec::new();
    let mut warnings = Vec::new();
    for event in events {
        let reaction = c.on_event(*event);
        assert_eq!(reaction.next, c);
        actions.push(reaction.action);
        warnings.push(reaction.warn);
    }
    (c, actions, warnings)
}

#[test]
fn a_new_coordinator_serves() {
    let c = Coordinator::new();
    assert_eq!(c.phase, Phase::Serving);
    assert!(!c.overran);
    assert!(c.accepting());
}

#[test]
fn a_graceful_shutdown_flushes_trace_log_metric_and_exits_with_zero() {
    let (c, actions, warnings) = run(&[
        Event::Stop(Cause::Interrupt),
        Event::Drained,
        Event::Flushed(SignalKind::Trace),
        Event::Flushed(SignalKind::Log),
        Event::Flushed(SignalKind::Metric),
    ]);
    assert_eq!(
        actions,
        vec![
            Action::StopAccepting,
            Action::Flush(SignalKind::Trace),
            Action::Flush(SignalKind::Log),
            Action::Flush(SignalKind::Metric),
            Action::Exit(0),
        ]
    );
    assert_eq!(warnings, vec![false; 5]);
    assert_eq!(c.phase, Phase::Exited);
    assert!(!c.accepting());
}

#[test]
fn every_cause_stops_the_server_alike() {
    for cause in [Cause::Interrupt, Cause::Terminate, Cause::ServerStopped] {
        let (c, actions, _) = run(&[Event::Stop(cause)]);
        assert_eq!(actions, vec![Action::StopAccepting]);
        assert_eq!(c.phase, Phase::Draining);
        assert!(!c.accepting());
    }
}

#[test]
fn a_second_stop_changes_nothing() {
    let (c, actions, _) = run(&[Event::Stop(Cause::Interrupt), Event::Stop(Cause::Terminate), Event::Stop(Cause::Interrupt)]);
    assert_eq!(actions, vec![Action::StopAccepting, Action::Nothing, Action::Nothing]);
    assert_eq!(c.phase, Phase::Draining);
    let (c, actions, _) = run(&[
        Event::Stop(Cause::Interrupt),
        Event::Drained,
        Event::Stop(Cause::Terminate),
    ]);
    assert_eq!(actions[2], Action::Nothing);
    assert_eq!(c.phase, Phase::Flushing(SignalKind::Trace));
}

#[test]
fn an_exceeded_grace_period_exits_with_one() {
    let (c, actions, warnings) = run(&[
        Event::Stop(Cause::Terminate),
        Event::GraceElapsed,
        Event::Drained,
        Event::Flushed(SignalKind::Trace),
        Event::Flushed(SignalKind::Log),
        Event::Flushed(SignalKind::Metric),
    ]);
    assert_eq!(
        actions,
        vec![
            Action::StopAccepting,
            Action::Flush(SignalKind::Trace),
            Action::Nothing,
            Action::Flush(SignalKind::Log),
            Action::Flush(SignalKind::Metric),
            Action::Exit(1),
        ]
    );
    assert!(c.overran);
    assert_eq!(warnings, vec![false; 6]);
}

#[test]
fn a_grace_period_that_ends_outside_the_draining_does_not_count() {
    let (c, actions, _) = run(&[
        Event::GraceElapsed,
        Event::Stop(Cause::Interrupt),
        Event::Drained,
        Event::GraceElapsed,
        Event::Flushed(SignalKind::Trace),
        Event::Flushed(SignalKind::Log),
        Event::Flushed(SignalKind::Metric),
    ]);
    assert_eq!(actions[0], Action::Nothing);
    assert_eq!(actions[3], Action::Nothing);
    assert_eq!(actions[6], Action::Exit(0));
    assert!(!c.overran);
}

#[test]
fn a_flush_that_times_out_warns_and_goes_on() {
    let (c, actions, warnings) = run(&[
        Event::Stop(Cause::Interrupt),
        Event::Drained,
        Event::FlushTimedOut(SignalKind::Trace),
        Event::Flushed(SignalKind::Log),
        Event::FlushTimedOut(SignalKind::Metric),
    ]);
    assert_eq!(
        actions,
        vec![
            Action::StopAccepting,
            Action::Flush(SignalKind::Trace),
            Action::Flush(SignalKind::Log),
            Action::Flush(SignalKind::Metric),
            Action::Exit(0),
        ]
    );
    assert_eq!(warnings, vec![false, false, true, false, true]);
    assert_eq!(c.phase, Phase::Exited);
}

#[test]
fn a_flush_report_of_another_kind_is_ignored() {
    let (c, actions, warnings) = run(&[
        Event::Stop(Cause::Interrupt),
        Event::Drained,
        Event::Flushed(SignalKind::Log),
        Event::Flushed(SignalKind::Metric),
        Event::FlushTimedOut(SignalKind::Metric),
    ]);
    assert_eq!(actions[2..], [Action::Nothing, Action::Nothing, Action::Nothing]);
    assert_eq!(warnings, vec![false; 5]);
    assert_eq!(c.phase, Phase::Flushing(SignalKind::Trace));
}

#[test]
fn events_out_of_turn_change_nothing() {
    let (c, actions, _) = run(&[Event::Drained, Event::Flushed(SignalKind::Trace), Event::FlushTimedOut(SignalKind::Log)]);
    assert_eq!(actions, vec![Action::Nothing; 3]);
    assert_eq!(c, Coordinator::new());
}

#[test]
fn after_the_exit_nothing_happens() {
    let exited = Coordinator { phase: Phase::Exited, overran: true };
    for event in [
        Event::Stop(Cause::Interrupt),
        Event::Drained,
        Event::GraceElapsed,
        Event::Flushed(SignalKind::Metric),
        Event::FlushTimedOut(SignalKind::Trace),
    ] {
        let reaction = decide(exited, event);
        assert_eq!(reaction.next, exited);
        assert_eq!(reaction.action, Action::Nothing);
        assert!(!reaction.warn);
    }
}

#[test]
fn the_waits_are_bounded() {
    assert_eq!(GRACE_PERIOD_SECS, 30);
    assert_eq!(FLUSH_TIMEOUT_SECS, 5);
}
