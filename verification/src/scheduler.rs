//! The scheduler: when a measurement cycle starts and what becomes of its outcome.
//!
//! The scheduler is a state machine. Whoever drives it waits for the cadence,
//! runs the tool and writes the report; the scheduler decides, for each event,
//! what is to be done next.

use vstd::prelude::*;
use crate::monitor::{CollectionError, CollectionErrorView, NetworkMonitor};
use crate::record::{NetworkMetrics, NetworkMetricsView};

verus! {

/// Where the scheduler stands between two events.
#[derive(Debug, Clone, Copy, PartialEq, Eq)]
pub enum Phase {
    /// No cycle is running; the next tick starts one.
    Waiting,
    /// A cycle was started and has not finished yet.
    Collecting,
}

/// What happened outside the scheduler.
#[derive(Debug, PartialEq, Eq)]
pub enum Event {
    /// One cadence interval has elapsed.
    Tick,
    /// The collector has returned.
    Finished(Result<NetworkMetrics, CollectionError>),
}

/// What the driver is to do next.
#[derive(Debug, PartialEq, Eq)]
pub enum Action {
    /// Nothing.
    Idle,
    /// Run the collector and hand back what it returns.
    Collect,
    /// Emit the record of a successful cycle.
    Report(NetworkMetrics),
    /// Log the error of a failed cycle.
    LogError(CollectionError),
}

/// The mathematical model of an [`Event`].
pub enum EventView {
    Tick,
    Finished(Result<NetworkMetricsView, CollectionErrorView>),
}

/// The mathematical model of an [`Action`].
pub enum ActionView {
    Idle,
    Collect,
    Report(NetworkMetricsView),
    LogError(CollectionErrorView),
}

impl View for Event {
    type V = EventView;

    open spec fn view(&self) -> EventView {
        match self {
            Event::Tick => EventView::Tick,
            Event::Finished(Ok(metrics)) => EventView::Finished(Ok(metrics@)),
            Event::Finished(Err(error)) => EventView::Finished(Err(error@)),
        }
    }
}

impl View for Action {
    type V = ActionView;

    open spec fn view(&self) -> ActionView {
        match self {
            Action::Idle => ActionView::Idle,
            Action::Collect => ActionView::Collect,
            Action::Report(metrics) => ActionView::Report(metrics@),
            Action::LogError(error) => ActionView::LogError(error@),
        }
    }
}

/// What is done with the outcome of a cycle: a record is reported, an error is logged.
pub open spec fn dispatched(outcome: Result<NetworkMetricsView, CollectionErrorView>) -> ActionView {
    match outcome {
        Ok(metrics) => ActionView::Report(metrics),
        Err(error) => ActionView::LogError(error),
    }
}

/// The transition of the scheduler: the phase after `event` and the action that it calls for.
///
/// A tick starts a cycle only while the scheduler waits. The end of a cycle,
/// good or bad, brings the scheduler back to waiting. An event that does not
/// fit the phase changes nothing and calls for nothing.
pub open spec fn transition(phase: Phase, event: EventView) -> (Phase, ActionView) {
    match (phase, event) {
        (Phase::Waiting, EventView::Tick) => (Phase::Collecting, ActionView::Collect),
        (Phase::Waiting, EventView::Finished(_)) => (Phase::Waiting, ActionView::Idle),
        (Phase::Collecting, EventView::Tick) => (Phase::Collecting, ActionView::Idle),
        (Phase::Collecting, EventView::Finished(outcome)) => (Phase::Waiting, dispatched(outcome)),
    }
}

/// Drives measurement cycles on a fixed cadence.
#[derive(Debug, Clone, Copy, PartialEq, Eq)]
pub struct Scheduler {
    cadence_secs: u64,
    phase: Phase,
}

impl Scheduler {
    #[verifier::type_invariant]
    spec fn cadence_is_positive(self) -> bool {
        self.cadence_secs > 0
    }

    /// The seconds between two ticks.
    pub closed spec fn cadence(self) -> nat {
        self.cadence_secs as nat
    }

    /// The phase that the scheduler is in.
    pub closed spec fn current_phase(self) -> Phase {
        self.phase
    }

    /// A scheduler that waits for its first tick.
    pub fn new(monitor: &NetworkMonitor) -> (r: Scheduler)
        ensures
            r.cadence() == monitor.cadence(),
            r.current_phase() == Phase::Waiting,
    {
        Scheduler { cadence_secs: monitor.cadence_secs(), phase: Phase::Waiting }
    }

    /// The seconds to wait for the first tick: one full interval, so that no
    /// cycle starts at once.
    pub fn first_tick_delay_secs(&self) -> (r: u64)
        ensures
            r == self.cadence(),
            r > 0,
    {
        self.cadence_secs()
    }

    /// The seconds between two ticks.
    pub fn cadence_secs(&self) -> (r: u64)
        ensures
            r == self.cadence(),
            r > 0,
    {
        proof {
            use_type_invariant(self);
        }
        self.cadence_secs
    }

    /// The phase that the scheduler is in.
    pub fn phase(&self) -> (r: Phase)
        ensures
            r == self.current_phase(),
    {
        self.phase
    }

    /// Takes one event and says what is to be done.
    pub fn step(&mut self, event: Event) -> (action: Action)
        ensures
            (final(self).current_phase(), action@) == transition(old(self).current_phase(), event@),
            final(self).cadence() == old(self).cadence(),
    {
        proof {
            use_type_invariant(&*self);
        }
        match self.phase {
            Phase::Waiting => match event {
                Event::Tick => {
                    self.phase = Phase::Collecting;
                    Action::Collect
                },
                Event::Finished(_) => Action::Idle,
            },
            Phase::Collecting => match event {
                Event::Tick => Action::Idle,
                Event::Finished(outcome) => {
                    self.phase = Phase::Waiting;
                    match outcome {
                        Ok(metrics) => Action::Report(metrics),
                        Err(error) => Action::LogError(error),
                    }
                },
            },
        }
    }
}

/// The phase that a run of events ends in, and the actions that it calls for, one for each event.
pub open spec fn run(phase: Phase, events: Seq<EventView>) -> (Phase, Seq<ActionView>)
    decreases events.len(),
{
    if events.len() == 0 {
        (phase, Seq::empty())
    } else {
        let before = run(phase, events.drop_last());
        let last = transition(before.0, events.last());
        (last.0, before.1.push(last.1))
    }
}

/// How many cycles the actions start.
pub open spec fn cycles_started(actions: Seq<ActionView>) -> nat
    decreases actions.len(),
{
    if actions.len() == 0 {
        0
    } else {
        cycles_started(actions.drop_last()) + if actions.last() is Collect {
            1nat
        } else {
            0nat
        }
    }
}

/// How many cycles the actions bring to their end, by a report or by a logged error.
pub open spec fn cycles_finished(actions: Seq<ActionView>) -> nat
    decreases actions.len(),
{
    if actions.len() == 0 {
        0
    } else {
        cycles_finished(actions.drop_last()) + if actions.last() is Report
            || actions.last() is LogError {
            1nat
        } else {
            0nat
        }
    }
}

/// The events of one cycle after another: for each outcome a tick, then the end of the cycle.
pub open spec fn cycle_events(outcomes: Seq<Result<NetworkMetricsView, CollectionErrorView>>) -> Seq<
    EventView,
>
    decreases outcomes.len(),
{
    if outcomes.len() == 0 {
        Seq::empty()
    } else {
        cycle_events(outcomes.drop_last()).push(EventView::Tick).push(
            EventView::Finished(outcomes.last()),
        )
    }
}

/// The actions of one cycle after another: for each outcome the start of a
/// cycle, then the report of its record or the log of its error.
pub open spec fn cycle_actions(outcomes: Seq<Result<NetworkMetricsView, CollectionErrorView>>) -> Seq<
    ActionView,
>
    decreases outcomes.len(),
{
    if outcomes.len() == 0 {
        Seq::empty()
    } else {
        cycle_actions(outcomes.drop_last()).push(ActionView::Collect).push(
            dispatched(outcomes.last()),
        )
    }
}

/// What a run has done after its first `n` events is what the run of these `n` events does.
pub proof fn lemma_run_of_prefix(phase: Phase, events: Seq<EventView>, n: int)
    requires
        0 <= n <= events.len(),
    ensures
        run(phase, events).1.len() == events.len(),
        run(phase, events.take(n)).1 == run(phase, events).1.take(n),
    decreases events.len(),
{
    if events.len() == 0 {
        assert(events.take(n) =~= events);
        assert(run(phase, events).1.take(n) =~= run(phase, events).1);
    } else {
        lemma_run_of_prefix(phase, events.drop_last(), 0);
        if n == events.len() {
            assert(events.take(n) =~= events);
            assert(run(phase, events).1.take(n) =~= run(phase, events).1);
        } else {
            lemma_run_of_prefix(phase, events.drop_last(), n);
            assert(events.drop_last().take(n) =~= events.take(n));
            assert(run(phase, events).1.take(n) =~= run(phase, events.drop_last()).1.take(n));
        }
    }
}

/// A scheduler that started out waiting has started exactly as many cycles as
/// have ended while it waits, and exactly one more while it collects.
pub proof fn lemma_cycles_in_flight(events: Seq<EventView>)
    ensures
        cycles_started(run(Phase::Waiting, events).1) == cycles_finished(
            run(Phase::Waiting, events).1,
        ) + if run(Phase::Waiting, events).0 is Collecting {
            1nat
        } else {
            0nat
        },
    decreases events.len(),
{
    if events.len() > 0 {
        lemma_cycles_in_flight(events.drop_last());
        let before = run(Phase::Waiting, events.drop_last());
        let last = transition(before.0, events.last());
        let actions = before.1.push(last.1);
        assert(actions.drop_last() =~= before.1);
        assert(actions.last() == last.1);
    }
}

/// Cycles never overlap. Whatever events arrive, in whatever order, and
/// however long a cycle takes, at every moment of the run the cycles started
/// are those that have ended and at most one more: no cycle is started before
/// the one before it has ended.
pub proof fn lemma_cycles_never_overlap(events: Seq<EventView>, n: int)
    requires
        0 <= n <= events.len(),
    ensures
        cycles_finished(run(Phase::Waiting, events).1.take(n)) <= cycles_started(
            run(Phase::Waiting, events).1.take(n),
        ) <= cycles_finished(run(Phase::Waiting, events).1.take(n)) + 1,
{
    lemma_run_of_prefix(Phase::Waiting, events, n);
    lemma_cycles_in_flight(events.take(n));
}

/// Failures do not stop the scheduler. Cycle after cycle, whatever the
/// outcomes were, every tick starts a cycle, every record is reported as it
/// came, every error is logged as it came, and the scheduler waits again.
pub proof fn lemma_every_cycle_is_served(
    outcomes: Seq<Result<NetworkMetricsView, CollectionErrorView>>,
)
    ensures
        run(Phase::Waiting, cycle_events(outcomes)) == (Phase::Waiting, cycle_actions(outcomes)),
    decreases outcomes.len(),
{
    if outcomes.len() > 0 {
        lemma_every_cycle_is_served(outcomes.drop_last());
        let earlier = cycle_events(outcomes.drop_last());
        let ticked = earlier.push(EventView::Tick);
        let all = ticked.push(EventView::Finished(outcomes.last()));
        assert(ticked.drop_last() =~= earlier);
        assert(all.drop_last() =~= ticked);
        assert(run(Phase::Waiting, ticked) == (
            Phase::Collecting,
            cycle_actions(outcomes.drop_last()).push(ActionView::Collect),
        ));
    }
}

} // verus!
