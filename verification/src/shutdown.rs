//! The shutdown coordinator. It decides; its caller waits for signals and
//! timers, stops the server and hands flushed records to the exporters,
//! and reports back each thing that happened.

use crate::telemetry::SignalKind;
use vstd::prelude::*;

verus! {

/// Seconds that requests in flight get to finish once the process was
/// asked to stop.
pub const GRACE_PERIOD_SECS: u64 = 30;

/// Seconds that one provider gets to flush.
pub const FLUSH_TIMEOUT_SECS: u64 = 5;

/// Why the process is asked to stop.
#[derive(Clone, Copy, Debug, PartialEq, Eq, Structural)]
pub enum Cause {
    /// An interrupt from the terminal.
    Interrupt,
    /// A request to terminate.
    Terminate,
    /// The serving loop ended by itself.
    ServerStopped,
}

/// Where the shutdown stands.
#[derive(Clone, Copy, Debug, PartialEq, Eq, Structural)]
pub enum Phase {
    /// Requests are accepted.
    Serving,
    /// No new requests; those in flight may finish.
    Draining,
    /// The provider of this kind is being flushed.
    Flushing(SignalKind),
    /// The process has been told to exit.
    Exited,
}

/// Something that happened.
#[derive(Clone, Copy, Debug, PartialEq, Eq, Structural)]
pub enum Event {
    /// The process was asked to stop.
    Stop(Cause),
    /// Every request in flight has finished.
    Drained,
    /// The grace period for requests in flight is over.
    GraceElapsed,
    /// The provider of this kind has flushed.
    Flushed(SignalKind),
    /// The provider of this kind did not flush in time.
    FlushTimedOut(SignalKind),
}

/// What the caller is to do next.
#[derive(Clone, Copy, Debug, PartialEq, Eq, Structural)]
pub enum Action {
    /// Nothing: go on waiting.
    Nothing,
    /// Stop accepting requests and start the grace period.
    StopAccepting,
    /// Shut down the provider of this kind and wait for its flush.
    Flush(SignalKind),
    /// Exit with this code.
    Exit(u8),
}

/// The coordinator's state.
#[derive(Clone, Copy, Debug, PartialEq, Eq, Structural)]
pub struct Coordinator {
    pub phase: Phase,
    /// Whether requests were still in flight when the grace period ended.
    pub overran: bool,
}

/// What the coordinator answers to an event.
#[derive(Clone, Copy, Debug, PartialEq, Eq, Structural)]
pub struct Reaction {
    pub next: Coordinator,
    pub action: Action,
    /// Set where a flush timed out: the caller logs a warning, if it
    /// still can, and goes on.
    pub warn: bool,
}

/// The exit code: zero for a graceful shutdown, one where the grace period
/// was exceeded.
pub open spec fn exit_code(overran: bool) -> u8 {
    if overran {
        1
    } else {
        0
    }
}

/// What follows the flush of one kind: the flush of the next kind, or the
/// exit after the last. The order is trace, log, metric.
pub open spec fn after_flush_of(kind: SignalKind, overran: bool) -> (Phase, Action) {
    match kind {
        SignalKind::Trace => (Phase::Flushing(SignalKind::Log), Action::Flush(SignalKind::Log)),
        SignalKind::Log => (Phase::Flushing(SignalKind::Metric), Action::Flush(SignalKind::Metric)),
        SignalKind::Metric => (Phase::Exited, Action::Exit(exit_code(overran))),
    }
}

/// An event that changes nothing.
pub open spec fn ignored(c: Coordinator) -> Reaction {
    Reaction { next: c, action: Action::Nothing, warn: false }
}

/// The coordinator's answer to an event.
pub open spec fn react(c: Coordinator, event: Event) -> Reaction {
    match (c.phase, event) {
        (Phase::Serving, Event::Stop(_)) => Reaction {
            next: Coordinator { phase: Phase::Draining, overran: c.overran },
            action: Action::StopAccepting,
            warn: false,
        },
        (Phase::Draining, Event::Drained) => Reaction {
            next: Coordinator { phase: Phase::Flushing(SignalKind::Trace), overran: c.overran },
            action: Action::Flush(SignalKind::Trace),
            warn: false,
        },
        (Phase::Draining, Event::GraceElapsed) => Reaction {
            next: Coordinator { phase: Phase::Flushing(SignalKind::Trace), overran: true },
            action: Action::Flush(SignalKind::Trace),
            warn: false,
        },
        (Phase::Flushing(current), Event::Flushed(kind)) => if kind == current {
            Reaction {
                next: Coordinator { phase: after_flush_of(kind, c.overran).0, overran: c.overran },
                action: after_flush_of(kind, c.overran).1,
                warn: false,
            }
        } else {
            ignored(c)
        },
        (Phase::Flushing(current), Event::FlushTimedOut(kind)) => if kind == current {
            Reaction {
                next: Coordinator { phase: after_flush_of(kind, c.overran).0, overran: c.overran },
                action: after_flush_of(kind, c.overran).1,
                warn: true,
            }
        } else {
            ignored(c)
        },
        _ => ignored(c),
    }
}

/// The state after a run of events.
pub open spec fn state_after(c: Coordinator, events: Seq<Event>) -> Coordinator
    decreases events.len(),
{
    if events.len() == 0 {
        c
    } else {
        react(state_after(c, events.drop_last()), events.last()).next
    }
}

/// The flushes that a run of events called for, in order.
pub open spec fn flushes_during(c: Coordinator, events: Seq<Event>) -> Seq<SignalKind>
    decreases events.len(),
{
    if events.len() == 0 {
        Seq::empty()
    } else {
        let before = flushes_during(c, events.drop_last());
        match react(state_after(c, events.drop_last()), events.last()).action {
            Action::Flush(kind) => before.push(kind),
            _ => before,
        }
    }
}

/// How many times a run of events told the server to stop accepting.
pub open spec fn stops_during(c: Coordinator, events: Seq<Event>) -> nat
    decreases events.len(),
{
    if events.len() == 0 {
        0
    } else {
        let before = stops_during(c, events.drop_last());
        if react(state_after(c, events.drop_last()), events.last()).action == Action::StopAccepting {
            before + 1
        } else {
            before
        }
    }
}

/// The flushes that have been called for once the coordinator is in
/// `phase`.
pub open spec fn flushes_by(phase: Phase) -> Seq<SignalKind> {
    match phase {
        Phase::Serving => Seq::empty(),
        Phase::Draining => Seq::empty(),
        Phase::Flushing(SignalKind::Trace) => seq![SignalKind::Trace],
        Phase::Flushing(SignalKind::Log) => seq![SignalKind::Trace, SignalKind::Log],
        Phase::Flushing(SignalKind::Metric) => seq![SignalKind::Trace, SignalKind::Log, SignalKind::Metric],
        Phase::Exited => seq![SignalKind::Trace, SignalKind::Log, SignalKind::Metric],
    }
}

impl Coordinator {
    /// A coordinator for a process that serves.
    pub fn new() -> (c: Self)
        ensures
            c == (Coordinator { phase: Phase::Serving, overran: false }),
    {
        Coordinator { phase: Phase::Serving, overran: false }
    }

    /// Whether new requests are still accepted.
    pub fn accepting(&self) -> (b: bool)
        ensures
            b == (self.phase == Phase::Serving),
    {
        match self.phase {
            Phase::Serving => true,
            _ => false,
        }
    }

    /// Takes an event and says what to do.
    pub fn on_event(&mut self, event: Event) -> (action: Reaction)
        ensures
            action == react(*old(self), event),
            *final(self) == action.next,
    {
        let reaction = decide(*self, event);
        *self = reaction.next;
        reaction
    }
}

/// What follows the flush of one kind.
fn next_after_flush(kind: SignalKind, overran: bool) -> (out: (Phase, Action))
    ensures
        out == after_flush_of(kind, overran),
{
    match kind {
        SignalKind::Trace => (Phase::Flushing(SignalKind::Log), Action::Flush(SignalKind::Log)),
        SignalKind::Log => (Phase::Flushing(SignalKind::Metric), Action::Flush(SignalKind::Metric)),
        SignalKind::Metric => (
            Phase::Exited,
            Action::Exit(
                if overran {
                    1
                } else {
                    0
                },
            ),
        ),
    }
}

/// The coordinator's answer to an event.
pub fn decide(c: Coordinator, event: Event) -> (reaction: Reaction)
    ensures
        reaction == react(c, event),
{
    let unchanged = Reaction { next: c, action: Action::Nothing, warn: false };
    match c.phase {
        Phase::Serving => match event {
            Event::Stop(_) => Reaction {
                next: Coordinator { phase: Phase::Draining, overran: c.overran },
                action: Action::StopAccepting,
                warn: false,
            },
            _ => unchanged,
        },
        Phase::Draining => match event {
            Event::Drained => Reaction {
                next: Coordinator { phase: Phase::Flushing(SignalKind::Trace), overran: c.overran },
                action: Action::Flush(SignalKind::Trace),
                warn: false,
            },
            Event::GraceElapsed => Reaction {
                next: Coordinator { phase: Phase::Flushing(SignalKind::Trace), overran: true },
                action: Action::Flush(SignalKind::Trace),
                warn: false,
            },
            _ => unchanged,
        },
        Phase::Flushing(current) => match event {
            Event::Flushed(kind) => if kind == current {
                let next = next_after_flush(kind, c.overran);
                Reaction { next: Coordinator { phase: next.0, overran: c.overran }, action: next.1, warn: false }
            } else {
                unchanged
            },
            Event::FlushTimedOut(kind) => if kind == current {
                let next = next_after_flush(kind, c.overran);
                Reaction { next: Coordinator { phase: next.0, overran: c.overran }, action: next.1, warn: true }
            } else {
                unchanged
            },
            _ => unchanged,
        },
        Phase::Exited => unchanged,
    }
}

/// Flush order. Whatever happens, in whatever order, the flushes that a
/// process is told to make are a beginning of: trace, log, metric. No
/// provider is flushed twice, none before the one ahead of it has flushed
/// or timed out, and the server is told to stop accepting at most once.
pub proof fn lemma_flush_order(events: Seq<Event>)
    ensures
        ({
            let start = Coordinator { phase: Phase::Serving, overran: false };
            &&& flushes_during(start, events) == flushes_by(state_after(start, events).phase)
            &&& stops_during(start, events) == if state_after(start, events).phase == Phase::Serving {
                0nat
            } else {
                1nat
            }
        }),
    decreases events.len(),
{
    let start = Coordinator { phase: Phase::Serving, overran: false };
    if events.len() > 0 {
        lemma_flush_order(events.drop_last());
        let before = state_after(start, events.drop_last());
        let reaction = react(before, events.last());
        assert(flushes_during(start, events) =~= flushes_by(reaction.next.phase));
    }
}

/// Whether, in a run of events from the start of serving, the grace
/// period ended while requests were still draining.
pub open spec fn grace_exceeded(events: Seq<Event>) -> bool {
    exists|i: int|
        0 <= i < events.len() && events[i] == Event::GraceElapsed && (#[trigger] state_after(
            Coordinator { phase: Phase::Serving, overran: false },
            events.take(i),
        )).phase == Phase::Draining
}

/// The mark that the grace period was exceeded is set exactly when the
/// grace period ended during the draining.
pub proof fn lemma_overran(events: Seq<Event>)
    ensures
        state_after(Coordinator { phase: Phase::Serving, overran: false }, events).overran == grace_exceeded(
            events,
        ),
    decreases events.len(),
{
    let start = Coordinator { phase: Phase::Serving, overran: false };
    if events.len() > 0 {
        let rest = events.drop_last();
        let n = rest.len() as int;
        lemma_overran(rest);
        let before = state_after(start, rest);
        assert(events.take(n) =~= rest);
        assert forall|i: int| 0 <= i < n implies #[trigger] events.take(i) == rest.take(i) by {
            assert(events.take(i) =~= rest.take(i));
        }
        if grace_exceeded(rest) {
            // The grace period had ended during the draining before the last event came.
            let i = choose|i: int|
                0 <= i < rest.len() && rest[i] == Event::GraceElapsed && (#[trigger] state_after(
                    start,
                    rest.take(i),
                )).phase == Phase::Draining;
            assert(events[i] == Event::GraceElapsed);
            assert(state_after(start, events.take(i)).phase == Phase::Draining);
        }
        if events.last() == Event::GraceElapsed && before.phase == Phase::Draining {
            // The last event is the end of the grace period, and it meets the draining.
            assert(events[n] == Event::GraceElapsed);
            assert(state_after(start, events.take(n)).phase == Phase::Draining);
        }
        if grace_exceeded(events) {
            let i = choose|i: int|
                0 <= i < events.len() && events[i] == Event::GraceElapsed && (#[trigger] state_after(
                    start,
                    events.take(i),
                )).phase == Phase::Draining;
            if i < n {
                assert(rest[i] == Event::GraceElapsed);
                assert(state_after(start, rest.take(i)).phase == Phase::Draining);
            }
        }
    }
}

/// Exit code. A process that exits does so with code zero, unless the
/// grace period ended while requests were still draining: then with one.
/// A flush that timed out does not change the code.
pub proof fn lemma_exit_code(events: Seq<Event>, last: Event)
    requires
        react(state_after(Coordinator { phase: Phase::Serving, overran: false }, events), last).action is Exit,
    ensures
        react(
            state_after(Coordinator { phase: Phase::Serving, overran: false }, events),
            last,
        ).action->Exit_0 == exit_code(grace_exceeded(events)),
{
    lemma_overran(events);
}

/// Idempotent stop. A second request to stop, of whatever cause, changes
/// nothing and calls for nothing.
pub proof fn lemma_stop_twice(c: Coordinator, first: Cause, second: Cause)
    ensures
        react(react(c, Event::Stop(first)).next, Event::Stop(second)) == ignored(react(c, Event::Stop(first)).next),
{
}

/// After the exit nothing happens any more.
pub proof fn lemma_exited_is_final(c: Coordinator, event: Event)
    requires
        c.phase == Phase::Exited,
    ensures
        react(c, event) == ignored(c),
{
}

} // verus!
