//! The refresh scheduler as a state machine: what starts a refresh, and
//! when the next one may start.

use vstd::prelude::*;

verus! {

/// The fixed time between two refreshes by the timer, in seconds.
pub const REFRESH_INTERVAL_SECS: u64 = 10;

/// What can set off a refresh. The two sources race and neither has
/// priority: whichever is ready first is served.
#[derive(Clone, Copy, Debug, PartialEq, Eq, Structural)]
pub enum Trigger {
    /// The interval timer has ticked.
    Timer,
    /// A refresh was asked for.
    Signal,
}

/// What the scheduler is doing.
#[derive(Clone, Copy, Debug, PartialEq, Eq, Structural)]
pub enum SchedulerState {
    /// Waiting for a trigger.
    Idle,
    /// Running the aggregator.
    Refreshing,
}

/// What happens to the scheduler.
#[derive(Clone, Copy, Debug, PartialEq, Eq, Structural)]
pub enum SchedulerEvent {
    /// One of the trigger sources became ready.
    Fired(Trigger),
    /// The aggregator has finished.
    Completed,
}

/// What the scheduler's owner has to do next.
#[derive(Clone, Copy, Debug, PartialEq, Eq, Structural)]
pub enum SchedulerAction {
    /// Wait for the next event.
    Wait,
    /// Run the aggregator now, then report `Completed`.
    RunAggregator,
}

impl SchedulerState {
    /// The state after `event`.
    pub open spec fn next(self, event: SchedulerEvent) -> SchedulerState {
        match (self, event) {
            (SchedulerState::Idle, SchedulerEvent::Fired(_)) => SchedulerState::Refreshing,
            (SchedulerState::Idle, SchedulerEvent::Completed) => SchedulerState::Idle,
            (SchedulerState::Refreshing, SchedulerEvent::Fired(_)) => SchedulerState::Refreshing,
            (SchedulerState::Refreshing, SchedulerEvent::Completed) => SchedulerState::Idle,
        }
    }

    /// What `event` asks for: a trigger starts the aggregator only when none
    /// is running.
    pub open spec fn action(self, event: SchedulerEvent) -> SchedulerAction {
        match (self, event) {
            (SchedulerState::Idle, SchedulerEvent::Fired(_)) => SchedulerAction::RunAggregator,
            _ => SchedulerAction::Wait,
        }
    }

    /// The state in which the scheduler starts.
    pub fn new() -> (state: SchedulerState)
        ensures
            state == SchedulerState::Idle,
    {
        SchedulerState::Idle
    }

    /// Takes one event: the state that follows, and what to do.
    pub fn step(self, event: SchedulerEvent) -> (outcome: (SchedulerState, SchedulerAction))
        ensures
            outcome.0 == self.next(event),
            outcome.1 == self.action(event),
    {
        match self {
            SchedulerState::Idle => match event {
                SchedulerEvent::Fired(_) => (
                    SchedulerState::Refreshing,
                    SchedulerAction::RunAggregator,
                ),
                SchedulerEvent::Completed => (SchedulerState::Idle, SchedulerAction::Wait),
            },
            SchedulerState::Refreshing => match event {
                SchedulerEvent::Fired(_) => (SchedulerState::Refreshing, SchedulerAction::Wait),
                SchedulerEvent::Completed => (SchedulerState::Idle, SchedulerAction::Wait),
            },
        }
    }
}

/// The state after a run of events, taken one after the other.
pub open spec fn state_after(start: SchedulerState, events: Seq<SchedulerEvent>) -> SchedulerState
    decreases events.len(),
{
    if events.len() == 0 {
        start
    } else {
        state_after(start, events.drop_last()).next(events.last())
    }
}

/// How many times the aggregator was started over a run of events.
pub open spec fn starts(start: SchedulerState, events: Seq<SchedulerEvent>) -> nat
    decreases events.len(),
{
    if events.len() == 0 {
        0
    } else {
        let before = state_after(start, events.drop_last());
        let earlier = starts(start, events.drop_last());
        if before.action(events.last()) == SchedulerAction::RunAggregator {
            earlier + 1
        } else {
            earlier
        }
    }
}

/// How many times the aggregator finished while it was running, over a run
/// of events.
pub open spec fn completions(start: SchedulerState, events: Seq<SchedulerEvent>) -> nat
    decreases events.len(),
{
    if events.len() == 0 {
        0
    } else {
        let before = state_after(start, events.drop_last());
        let earlier = completions(start, events.drop_last());
        if before == SchedulerState::Refreshing && events.last() == SchedulerEvent::Completed {
            earlier + 1
        } else {
            earlier
        }
    }
}

/// Either source starts a refresh from `Idle`, and the outcome does not depend
/// on which of the two it was.
pub proof fn lemma_no_source_has_priority(first: Trigger, second: Trigger)
    ensures
        SchedulerState::Idle.next(SchedulerEvent::Fired(first)) == SchedulerState::Refreshing,
        SchedulerState::Idle.action(SchedulerEvent::Fired(first)) == SchedulerAction::RunAggregator,
        SchedulerState::Idle.next(SchedulerEvent::Fired(first)) == SchedulerState::Idle.next(
            SchedulerEvent::Fired(second),
        ),
        SchedulerState::Idle.action(SchedulerEvent::Fired(first)) == SchedulerState::Idle.action(
            SchedulerEvent::Fired(second),
        ),
{
}

/// The scheduler never ends: whatever its state, once the aggregator has
/// finished the next trigger starts another refresh.
pub proof fn lemma_never_stuck(state: SchedulerState, trigger: Trigger)
    ensures
        state.next(SchedulerEvent::Completed) == SchedulerState::Idle,
        state.next(SchedulerEvent::Completed).action(SchedulerEvent::Fired(trigger))
            == SchedulerAction::RunAggregator,
{
}

/// Two refreshes never run at the same time: over any run of events that
/// begins in `Idle`, the aggregator has been started exactly once more than it
/// has finished while the scheduler is `Refreshing`, and exactly as often
/// while it is `Idle`.
pub proof fn lemma_one_refresh_at_a_time(events: Seq<SchedulerEvent>)
    ensures
        state_after(SchedulerState::Idle, events) == SchedulerState::Refreshing ==> starts(
            SchedulerState::Idle,
            events,
        ) == completions(SchedulerState::Idle, events) + 1,
        state_after(SchedulerState::Idle, events) == SchedulerState::Idle ==> starts(
            SchedulerState::Idle,
            events,
        ) == completions(SchedulerState::Idle, events),
    decreases events.len(),
{
    if events.len() > 0 {
        lemma_one_refresh_at_a_time(events.drop_last());
    }
}

} // verus!
