//! Probes and what one visit to a probe can find.

use std::fmt::Debug;
use vstd::prelude::*;

verus! {

/// A health probe. Both questions are answered afresh on every call: the
/// answer may differ from one call to the next, so nothing is promised of it.
/// A probe that cannot tell answers `false`.
pub trait StateChecker: Send + Sync + Debug {
    /// Whether the probed part can take traffic right now.
    fn is_ready(&self) -> bool;

    /// Whether the probed part is running correctly right now.
    fn is_alive(&self) -> bool;
}

/// A boxed probe is a probe: it answers what the probe inside answers. This
/// lets one registry hold probes of different types, each in a box.
impl<T: StateChecker + ?Sized> StateChecker for Box<T> {
    fn is_ready(&self) -> (ready: bool)
        ensures
            answers::<T>(&**self, Capability::Ready, ready),
    {
        (**self).is_ready()
    }

    fn is_alive(&self) -> (alive: bool)
        ensures
            answers::<T>(&**self, Capability::Alive, alive),
    {
        (**self).is_alive()
    }
}

/// A probe with fixed answers, as for a database whose state is set from
/// outside: it answers what its two fields hold.
#[derive(Debug)]
pub struct DatabaseHealthCheck {
    pub ready: bool,
    pub alive: bool,
}

impl StateChecker for DatabaseHealthCheck {
    fn is_ready(&self) -> (ready: bool)
        ensures
            ready == self.ready,
    {
        self.ready
    }

    fn is_alive(&self) -> (alive: bool)
        ensures
            alive == self.alive,
    {
        self.alive
    }
}

/// One of the two questions a probe answers.
#[derive(Clone, Copy, Debug, PartialEq, Eq, Structural)]
pub enum Capability {
    Ready,
    Alive,
}

/// What a refresh records of one probe it visited.
///
/// Liveness is asked first. Readiness is asked only of a probe that is alive,
/// so `Dead` says nothing about readiness.
#[derive(Clone, Copy, Debug, PartialEq, Eq, Structural)]
pub enum ProbeStatus {
    /// Alive and ready.
    Healthy,
    /// Alive, but not ready.
    NotReady,
    /// Not alive.
    Dead,
}

impl ProbeStatus {
    /// The status that stands for a pair of answers.
    pub open spec fn of(alive: bool, ready: bool) -> ProbeStatus {
        if !alive {
            ProbeStatus::Dead
        } else if !ready {
            ProbeStatus::NotReady
        } else {
            ProbeStatus::Healthy
        }
    }

    /// Records a pair of answers.
    pub fn from_answers(alive: bool, ready: bool) -> (status: ProbeStatus)
        ensures
            status == ProbeStatus::of(alive, ready),
    {
        if !alive {
            ProbeStatus::Dead
        } else if !ready {
            ProbeStatus::NotReady
        } else {
            ProbeStatus::Healthy
        }
    }

    /// Whether this status leaves the verdict untouched.
    pub fn is_healthy(self) -> (healthy: bool)
        ensures
            healthy == (self == ProbeStatus::Healthy),
    {
        match self {
            ProbeStatus::Healthy => true,
            _ => false,
        }
    }
}

/// Visits one probe: asks whether it is alive and, only if it is, whether it
/// is ready. The status is whatever the probe answered at this moment.
pub fn examine<P: StateChecker + ?Sized>(probe: &P) -> (status: ProbeStatus)
    ensures
        shows(probe, status),
{
    if !probe.is_alive() {
        ProbeStatus::from_answers(false, false)
    } else {
        ProbeStatus::from_answers(true, probe.is_ready())
    }
}

/// Puts one question to one probe and returns what it answered.
pub fn ask<P: StateChecker + ?Sized>(probe: &P, which: Capability) -> (answer: bool)
    ensures
        answers(probe, which, answer),
{
    match which {
        Capability::Ready => probe.is_ready(),
        Capability::Alive => probe.is_alive(),
    }
}

/// Whether `answer` is an answer that `probe` gives to the question `which`:
/// one that a call of `is_ready` or `is_alive` on it returns. Of a probe whose
/// methods promise nothing this says which call was made, and of which probe;
/// of a probe whose methods promise something, that the answer keeps the
/// promise.
pub open spec fn answers<P: StateChecker + ?Sized>(
    probe: &P,
    which: Capability,
    answer: bool,
) -> bool {
    match which {
        Capability::Ready => call_ensures(P::is_ready, (probe,), answer),
        Capability::Alive => call_ensures(P::is_alive, (probe,), answer),
    }
}

/// Whether `status` is what a visit to `probe` records: `Dead` where it
/// answers that it is not alive; `NotReady` where it answers that it is alive
/// and then that it is not ready; `Healthy` where it answers that it is alive
/// and then that it is ready.
pub open spec fn shows<P: StateChecker + ?Sized>(probe: &P, status: ProbeStatus) -> bool {
    match status {
        ProbeStatus::Dead => answers(probe, Capability::Alive, false),
        ProbeStatus::NotReady => answers(probe, Capability::Alive, true) && answers(
            probe,
            Capability::Ready,
            false,
        ),
        ProbeStatus::Healthy => answers(probe, Capability::Alive, true) && answers(
            probe,
            Capability::Ready,
            true,
        ),
    }
}

/// A probe with fixed answers gives no other answer than its fields hold,
/// and a visit to it records the status of those two answers.
pub proof fn lemma_fixed_answers(probe: DatabaseHealthCheck, answer: bool, status: ProbeStatus)
    ensures
        answers(&probe, Capability::Ready, answer) ==> answer == probe.ready,
        answers(&probe, Capability::Alive, answer) ==> answer == probe.alive,
        shows(&probe, status) ==> status == ProbeStatus::of(probe.alive, probe.ready),
{
}

} // verus!
