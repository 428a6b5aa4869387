//! The engine's state: the registry, the cached verdict, the pending request
//! for a refresh, and the count of refreshes that observers follow.

use crate::probe::{Capability, ProbeStatus, StateChecker};
use crate::registry::{lemma_walk_ends_at_failure, ProbeRegistry, RegistryView};
use crate::scheduler::Trigger;
use crate::verdict::{
    all_healthy, blames_readiness, lemma_all_healthy_is_optimistic, lemma_first_failure_decides,
    AggregateState,
};
use vstd::prelude::*;

verus! {

/// What an engine holds.
pub struct ActuatorView<P> {
    /// The registered probes.
    pub registry: RegistryView<P>,
    /// The verdict of the last refresh.
    pub verdict: AggregateState,
    /// Whether a refresh has been asked for and not yet served. The slot holds
    /// one request: asking again while it is full changes nothing.
    pub trigger_pending: bool,
    /// The number of refreshes completed so far, counted modulo 2^64.
    pub refreshes: u64,
}

impl<P> ActuatorView<P> {
    /// A new engine: no probe, an optimistic verdict, nothing asked for,
    /// nothing refreshed.
    pub open spec fn initial() -> ActuatorView<P> {
        ActuatorView {
            registry: RegistryView::empty(),
            verdict: AggregateState::optimistic(),
            trigger_pending: false,
            refreshes: 0,
        }
    }

    /// The engine after `probe` has been registered under `name`.
    pub open spec fn registered(self, name: Seq<char>, probe: P) -> ActuatorView<P> {
        ActuatorView { registry: self.registry.registered(name, probe), ..self }
    }

    /// The engine after a refresh has been asked for.
    pub open spec fn triggered(self) -> ActuatorView<P> {
        ActuatorView { trigger_pending: true, ..self }
    }

    /// The count that follows `count`.
    pub open spec fn following(count: u64) -> u64 {
        if count == u64::MAX {
            0
        } else {
            (count + 1) as u64
        }
    }

    /// The engine after a refresh that found `observed`.
    pub open spec fn refreshed(self, observed: Seq<ProbeStatus>) -> ActuatorView<P> {
        ActuatorView {
            verdict: self.verdict.fail_fast(observed),
            refreshes: Self::following(self.refreshes),
            ..self
        }
    }

    /// The engine after one turn of the scheduler: a turn set off by the
    /// signal takes the request out of its slot, a turn set off by the timer
    /// leaves it there; either runs one refresh.
    pub open spec fn stepped(self, trigger: Trigger, observed: Seq<ProbeStatus>) -> ActuatorView<P> {
        ActuatorView {
            trigger_pending: trigger == Trigger::Timer && self.trigger_pending,
            ..self.refreshed(observed)
        }
    }

    /// The cached flag that belongs to the question `which`.
    pub open spec fn flag(self, which: Capability) -> bool {
        match which {
            Capability::Ready => self.verdict.is_ready,
            Capability::Alive => self.verdict.is_alive,
        }
    }

    /// Whether the question `which` is upheld: the cached flag is set and
    /// every probe answers `true`.
    pub open spec fn upholds(self, which: Capability) -> bool
        where P: StateChecker
    {
        self.flag(which) && self.registry.all_answer_true(which)
    }

    /// Whether the question `which` is denied: the cached flag is clear or
    /// some probe answers `false`.
    pub open spec fn denies(self, which: Capability) -> bool
        where P: StateChecker
    {
        !self.flag(which) || self.registry.some_answer_false(which)
    }

    /// Whether `value` is what a request can see of the question `which`:
    /// `true` only where the question is upheld, `false` only where it is
    /// denied.
    pub open spec fn sees(self, which: Capability, value: bool) -> bool
        where P: StateChecker
    {
        &&& value ==> self.upholds(which)
        &&& !value ==> self.denies(which)
    }

    /// What an observer that has followed the engine up to the count `seen`
    /// is told now: the current verdict if a refresh has completed since, and
    /// nothing otherwise.
    pub open spec fn notification(self, seen: u64) -> Option<AggregateState> {
        if self.refreshes != seen {
            Some(self.verdict)
        } else {
            None
        }
    }
}

/// The engine: a registry of probes and the verdict of the last refresh.
#[derive(Debug)]
pub struct ActuatorState<P: StateChecker> {
    health_checkers: ProbeRegistry<P>,
    verdict: AggregateState,
    trigger_pending: bool,
    refreshes: u64,
}

impl<P: StateChecker> View for ActuatorState<P> {
    type V = ActuatorView<P>;

    closed spec fn view(&self) -> ActuatorView<P> {
        ActuatorView {
            registry: self.health_checkers@,
            verdict: self.verdict,
            trigger_pending: self.trigger_pending,
            refreshes: self.refreshes,
        }
    }
}

/// An observer's handle on an engine's refreshes. It remembers how far the
/// observer has followed them.
#[derive(Debug)]
pub struct StateCheckReceiver {
    seen: u64,
}

impl View for StateCheckReceiver {
    type V = u64;

    closed spec fn view(&self) -> u64 {
        self.seen
    }
}

impl<P: StateChecker> ActuatorState<P> {
    /// A new engine, healthy until proven otherwise.
    pub fn new() -> (state: ActuatorState<P>)
        ensures
            state@ == ActuatorView::<P>::initial(),
    {
        ActuatorState {
            health_checkers: ProbeRegistry::new(),
            verdict: AggregateState::new(),
            trigger_pending: false,
            refreshes: 0,
        }
    }

    /// Registers `checker` under `name`; the next refresh visits it. A checker
    /// already registered under that name is replaced.
    pub fn add_health_checker(&mut self, name: String, checker: P)
        ensures
            final(self)@ == old(self)@.registered(name@, checker),
    {
        self.health_checkers.register(name, checker);
    }

    /// Asks for a refresh. Nothing is refreshed here: the request waits in its
    /// slot until the scheduler serves it.
    pub fn trigger_state_check(&mut self)
        ensures
            final(self)@ == old(self)@.triggered(),
    {
        self.trigger_pending = true;
    }

    /// A handle for an observer who wants to hear of the refreshes that
    /// complete from now on.
    pub fn create_state_check_receiver(&self) -> (receiver: StateCheckReceiver)
        ensures
            receiver@ == self@.refreshes,
    {
        StateCheckReceiver { seen: self.refreshes }
    }

    /// Runs the aggregator once: walks the probes, refreshes the verdict from
    /// what they answered, and counts the refresh. Returns what the walk
    /// found: of each probe visited, the status that this probe showed.
    ///
    /// The verdict is healthy if and only if every probe was found healthy,
    /// and then all were visited and it is optimistic. Where the walk came
    /// upon a dead probe, the verdict is neither alive nor healthy; where it
    /// came upon one that is not ready, the verdict is neither ready nor
    /// healthy.
    pub fn check_all_health(&mut self) -> (observed: Vec<ProbeStatus>)
        ensures
            old(self)@.registry.records(observed@),
            final(self)@ == old(self)@.refreshed(observed@),
            final(self)@.verdict.is_healthy == all_healthy(observed@),
            all_healthy(observed@) ==> observed@.len() == old(self)@.registry.names.len()
                && final(self)@.verdict == AggregateState::optimistic(),
            observed@.contains(ProbeStatus::Dead) ==> final(self)@.verdict
                == old(self)@.verdict.blamed(ProbeStatus::Dead),
            observed@.contains(ProbeStatus::NotReady) ==> final(self)@.verdict
                == old(self)@.verdict.blamed(ProbeStatus::NotReady),
    {
        let observed = self.health_checkers.examine_all();
        proof {
            let count = self@.registry.names.len();
            if all_healthy(observed@) {
                lemma_all_healthy_is_optimistic(self@.verdict, observed@);
            } else {
                lemma_walk_ends_at_failure(observed@, count);
                lemma_first_failure_decides(self@.verdict, observed@, observed@.len() - 1);
            }
        }
        self.verdict.refresh(&observed);
        self.refreshes = if self.refreshes == u64::MAX {
            0
        } else {
            self.refreshes + 1
        };
        observed
    }

    /// One turn of the scheduler's loop, set off by `trigger`: a turn set off
    /// by the signal takes the request out of its slot; either runs the
    /// aggregator once and returns what its walk found.
    pub fn state_check_step(&mut self, trigger: Trigger) -> (observed: Vec<ProbeStatus>)
        ensures
            old(self)@.registry.records(observed@),
            final(self)@ == old(self)@.stepped(trigger, observed@),
            final(self)@.verdict.is_healthy == all_healthy(observed@),
    {
        match trigger {
            Trigger::Signal => {
                self.trigger_pending = false;
            },
            Trigger::Timer => {},
        }
        self.check_all_health()
    }

    /// The verdict of the last refresh.
    pub fn verdict(&self) -> (verdict: AggregateState)
        ensures
            verdict == self@.verdict,
    {
        self.verdict
    }

    /// Whether a refresh has been asked for and not yet served.
    pub fn is_state_check_pending(&self) -> (pending: bool)
        ensures
            pending == self@.trigger_pending,
    {
        self.trigger_pending
    }

    /// The registered checkers, for reading.
    pub fn health_checkers(&self) -> (registry: &ProbeRegistry<P>)
        ensures
            registry@ == self@.registry,
    {
        &self.health_checkers
    }

    /// The number of registered checkers.
    pub fn health_checker_count(&self) -> (count: usize)
        ensures
            count == self@.registry.names.len(),
    {
        self.health_checkers.len()
    }

    /// Whether a checker is registered under `name`.
    pub fn has_health_checker(&self, name: &str) -> (found: bool)
        ensures
            found == self@.registry.names.contains(name@),
    {
        self.health_checkers.contains(name)
    }

    /// Readiness as a request sees it: the cached flag, and with it the
    /// answers of the probes, each asked now whether it is ready. It is `true`
    /// where the flag is set and every probe answered `true`, and `false`
    /// where the flag is clear or some probe answered `false`. Without probes
    /// it is the cached flag.
    pub fn readiness_snapshot(&self) -> (ready: bool)
        ensures
            self@.sees(Capability::Ready, ready),
            ready ==> self@.verdict.is_ready,
            self@.registry.names.len() == 0 ==> ready == self@.verdict.is_ready,
    {
        self.verdict.is_ready && self.health_checkers.check_all(Capability::Ready)
    }

    /// Liveness as a request sees it: the cached flag, and with it the answers
    /// of the probes, each asked now whether it is alive. It is `true` where
    /// the flag is set and every probe answered `true`, and `false` where the
    /// flag is clear or some probe answered `false`. Without probes it is the
    /// cached flag.
    pub fn liveness_snapshot(&self) -> (alive: bool)
        ensures
            self@.sees(Capability::Alive, alive),
            alive ==> self@.verdict.is_alive,
            self@.registry.names.len() == 0 ==> alive == self@.verdict.is_alive,
    {
        self.verdict.is_alive && self.health_checkers.check_all(Capability::Alive)
    }
}

impl StateCheckReceiver {
    /// Takes the news, if there is any: the verdict as it stands in `state`
    /// where a refresh has completed since this receiver last looked. Several
    /// refreshes in between are told as one, with the verdict of the last.
    pub fn try_recv<P: StateChecker>(&mut self, state: &ActuatorState<P>) -> (news: Option<
        AggregateState,
    >)
        ensures
            news == state@.notification(old(self)@),
            final(self)@ == state@.refreshes,
    {
        if state.refreshes != self.seen {
            self.seen = state.refreshes;
            Some(state.verdict)
        } else {
            None
        }
    }
}

/// Where no probe ever answers that it is not alive or not ready, a refresh
/// visits every probe, finds each healthy, and leaves a verdict that is
/// ready, alive and healthy, whatever the verdict was before.
pub proof fn lemma_refresh_of_healthy_probes<P: StateChecker>(
    engine: ActuatorView<P>,
    observed: Seq<ProbeStatus>,
)
    requires
        engine.registry.records(observed),
        forall|place: int|
            0 <= place < engine.registry.names.len() ==> !engine.registry.answers_at(
                place,
                Capability::Alive,
                false,
            ) && !engine.registry.answers_at(place, Capability::Ready, false),
    ensures
        observed.len() == engine.registry.names.len(),
        all_healthy(observed),
        engine.refreshed(observed).verdict == AggregateState::optimistic(),
{
    assert forall|place: int| 0 <= place < observed.len() implies observed[place]
        == ProbeStatus::Healthy by {
        assert(engine.registry.shows_at(place, observed[place]));
        if observed[place] == ProbeStatus::Dead {
            assert(engine.registry.answers_at(place, Capability::Alive, false));
        } else if observed[place] == ProbeStatus::NotReady {
            assert(engine.registry.answers_at(place, Capability::Ready, false));
        }
    }
    lemma_all_healthy_is_optimistic(engine.verdict, observed);
}

/// Where some probe never answers that it is alive, a refresh leaves a
/// verdict that is not healthy, whatever the other probes answer and whatever
/// the verdict was before. It leaves one that is not alive either, except
/// where the walk stopped at a probe that is alive but not ready, before it
/// reached a dead one, and the verdict before the refresh was alive: there
/// readiness takes the blame and liveness stays as it was.
pub proof fn lemma_refresh_with_dead_probe<P: StateChecker>(
    engine: ActuatorView<P>,
    observed: Seq<ProbeStatus>,
    dead: int,
)
    requires
        engine.registry.records(observed),
        0 <= dead < engine.registry.names.len(),
        !engine.registry.answers_at(dead, Capability::Alive, true),
    ensures
        !engine.refreshed(observed).verdict.is_healthy,
        !(blames_readiness(observed) && engine.verdict.is_alive) ==> !engine.refreshed(
            observed,
        ).verdict.is_alive,
{
    if all_healthy(observed) {
        assert(observed[dead] == ProbeStatus::Healthy);
        assert(engine.registry.shows_at(dead, observed[dead]));
    }
    lemma_walk_ends_at_failure(observed, engine.registry.names.len());
    lemma_first_failure_decides(engine.verdict, observed, observed.len() - 1);
}

/// Where no probe ever answers that it is not alive and some probe never
/// answers that it is ready, a refresh leaves a verdict that is neither ready
/// nor healthy, and whose liveness is what it was before.
pub proof fn lemma_refresh_with_unready_probe<P: StateChecker>(
    engine: ActuatorView<P>,
    observed: Seq<ProbeStatus>,
    unready: int,
)
    requires
        engine.registry.records(observed),
        forall|place: int|
            0 <= place < engine.registry.names.len() ==> !engine.registry.answers_at(
                place,
                Capability::Alive,
                false,
            ),
        0 <= unready < engine.registry.names.len(),
        !engine.registry.answers_at(unready, Capability::Ready, true),
    ensures
        engine.refreshed(observed).verdict == engine.verdict.blamed(ProbeStatus::NotReady),
        !engine.refreshed(observed).verdict.is_ready,
        !engine.refreshed(observed).verdict.is_healthy,
        engine.refreshed(observed).verdict.is_alive == engine.verdict.is_alive,
{
    if all_healthy(observed) {
        assert(observed[unready] == ProbeStatus::Healthy);
        assert(engine.registry.shows_at(unready, observed[unready]));
    }
    lemma_walk_ends_at_failure(observed, engine.registry.names.len());
    let last = observed.len() - 1;
    lemma_first_failure_decides(engine.verdict, observed, last);
    assert(engine.registry.shows_at(last, observed[last]));
    if observed[last] == ProbeStatus::Dead {
        assert(engine.registry.answers_at(last, Capability::Alive, false));
    }
}

/// A refresh that was asked for is told to whoever subscribed before it ran,
/// be it before the request or after it, with the verdict computed after the
/// request. From the request until the scheduler has served it the observer is
/// told nothing, so what was cached before the request is never taken for
/// news; the turn that serves the request empties the slot.
pub proof fn lemma_notification_follows_trigger<P>(
    engine: ActuatorView<P>,
    observed: Seq<ProbeStatus>,
)
    ensures
        engine.triggered().trigger_pending,
        engine.triggered().refreshes == engine.refreshes,
        engine.triggered().notification(engine.refreshes) is None,
        engine.triggered().stepped(Trigger::Signal, observed).notification(engine.refreshes)
            == Some(engine.verdict.fail_fast(observed)),
        !engine.triggered().stepped(Trigger::Signal, observed).trigger_pending,
{
}

/// A request stays in its slot while only the timer sets off refreshes.
pub proof fn lemma_timer_keeps_request<P>(engine: ActuatorView<P>, observed: Seq<ProbeStatus>)
    ensures
        engine.stepped(Trigger::Timer, observed).trigger_pending == engine.trigger_pending,
        engine.stepped(Trigger::Timer, observed).verdict == engine.verdict.fail_fast(observed),
{
}

} // verus!
