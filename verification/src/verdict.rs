//! The aggregate verdict and the fail-fast rule that refreshes it.

use crate::probe::ProbeStatus;
use vstd::prelude::*;

verus! {

/// The combined judgment over all probes, as the last refresh left it.
#[derive(Clone, Copy, Debug, PartialEq, Eq, Structural)]
pub struct AggregateState {
    pub is_ready: bool,
    pub is_alive: bool,
    pub is_healthy: bool,
}

/// Whether `k` is the place of the first status in `outcomes` that is not
/// `Healthy`.
pub open spec fn is_first_failure(outcomes: Seq<ProbeStatus>, k: int) -> bool {
    &&& 0 <= k < outcomes.len()
    &&& outcomes[k] != ProbeStatus::Healthy
    &&& forall|j: int| 0 <= j < k ==> outcomes[j] == ProbeStatus::Healthy
}

/// Whether the first status in `outcomes` that is not `Healthy` is `NotReady`,
/// so that a refresh blames readiness.
pub open spec fn blames_readiness(outcomes: Seq<ProbeStatus>) -> bool {
    exists|k: int| is_first_failure(outcomes, k) && outcomes[k] == ProbeStatus::NotReady
}

/// Whether every status in `outcomes` is `Healthy`.
pub open spec fn all_healthy(outcomes: Seq<ProbeStatus>) -> bool {
    forall|i: int| 0 <= i < outcomes.len() ==> outcomes[i] == ProbeStatus::Healthy
}

impl AggregateState {
    /// Healthy until proven otherwise: all three flags set.
    pub open spec fn optimistic() -> AggregateState {
        AggregateState { is_ready: true, is_alive: true, is_healthy: true }
    }

    /// The verdict after one failing probe has been found. A dead probe is
    /// blamed on liveness and leaves readiness as it was; a probe that is not
    /// ready is blamed on readiness and leaves liveness as it was. Either
    /// clears `is_healthy`.
    pub open spec fn blamed(self, status: ProbeStatus) -> AggregateState {
        match status {
            ProbeStatus::Healthy => self,
            ProbeStatus::NotReady => AggregateState {
                is_ready: false,
                is_alive: self.is_alive,
                is_healthy: false,
            },
            ProbeStatus::Dead => AggregateState {
                is_ready: self.is_ready,
                is_alive: false,
                is_healthy: false,
            },
        }
    }

    /// The verdict that a refresh leaves, given the verdict before it and the
    /// statuses of the probes in the order of their visit: the first status
    /// that is not `Healthy` decides and nothing after it counts; with none,
    /// the verdict is optimistic again.
    pub open spec fn fail_fast(self, outcomes: Seq<ProbeStatus>) -> AggregateState
        decreases outcomes.len(),
    {
        if outcomes.len() == 0 {
            AggregateState::optimistic()
        } else if outcomes[0] != ProbeStatus::Healthy {
            self.blamed(outcomes[0])
        } else {
            self.fail_fast(outcomes.subrange(1, outcomes.len() as int))
        }
    }

    /// The verdict before any probe has been heard.
    pub fn new() -> (state: AggregateState)
        ensures
            state == AggregateState::optimistic(),
    {
        AggregateState { is_ready: true, is_alive: true, is_healthy: true }
    }

    /// Refreshes the verdict from the statuses of one walk over the probes.
    pub fn refresh(&mut self, outcomes: &Vec<ProbeStatus>)
        ensures
            *final(self) == old(self).fail_fast(outcomes@),
    {
        let n: usize = outcomes.len();
        let mut i: usize = 0;
        while i < n
            invariant
                n == outcomes.len(),
                i <= n,
                *self == *old(self),
                forall|j: int| 0 <= j < i ==> outcomes@[j] == ProbeStatus::Healthy,
            decreases n - i,
        {
            match outcomes[i] {
                ProbeStatus::Healthy => {},
                ProbeStatus::NotReady => {
                    proof {
                        lemma_first_failure_decides(*old(self), outcomes@, i as int);
                    }
                    self.is_ready = false;
                    self.is_healthy = false;
                    return ;
                },
                ProbeStatus::Dead => {
                    proof {
                        lemma_first_failure_decides(*old(self), outcomes@, i as int);
                    }
                    self.is_alive = false;
                    self.is_healthy = false;
                    return ;
                },
            }
            i = i + 1;
        }
        proof {
            lemma_all_healthy_is_optimistic(*old(self), outcomes@);
        }
        self.is_healthy = true;
        self.is_ready = true;
        self.is_alive = true;
    }
}

/// Where every probe is alive and ready, a refresh yields a verdict that is
/// ready, alive and healthy, whatever the verdict was before. With no probe at
/// all this is the case.
pub proof fn lemma_all_healthy_is_optimistic(before: AggregateState, outcomes: Seq<ProbeStatus>)
    requires
        all_healthy(outcomes),
    ensures
        before.fail_fast(outcomes) == AggregateState::optimistic(),
    decreases outcomes.len(),
{
    if outcomes.len() > 0 {
        let rest = outcomes.subrange(1, outcomes.len() as int);
        assert forall|i: int| 0 <= i < rest.len() implies rest[i] == ProbeStatus::Healthy by {
            assert(rest[i] == outcomes[i + 1]);
        }
        lemma_all_healthy_is_optimistic(before, rest);
    }
}

/// The first probe that fails decides the verdict alone: it is blamed, and
/// neither the probes before it nor those after it change the outcome.
pub proof fn lemma_first_failure_decides(
    before: AggregateState,
    outcomes: Seq<ProbeStatus>,
    k: int,
)
    requires
        is_first_failure(outcomes, k),
    ensures
        before.fail_fast(outcomes) == before.blamed(outcomes[k]),
    decreases k,
{
    if k > 0 {
        let rest = outcomes.subrange(1, outcomes.len() as int);
        assert(rest[k - 1] == outcomes[k]);
        assert forall|j: int| 0 <= j < k - 1 implies rest[j] == ProbeStatus::Healthy by {
            assert(rest[j] == outcomes[j + 1]);
        }
        lemma_first_failure_decides(before, rest, k - 1);
    }
}

/// Where not every status is `Healthy`, one of them is the first that is
/// not.
pub proof fn lemma_first_failure_exists(outcomes: Seq<ProbeStatus>)
    requires
        !all_healthy(outcomes),
    ensures
        exists|k: int| is_first_failure(outcomes, k),
    decreases outcomes.len(),
{
    if outcomes[0] != ProbeStatus::Healthy {
        assert(is_first_failure(outcomes, 0));
    } else {
        let rest = outcomes.subrange(1, outcomes.len() as int);
        let bad = choose|i: int| 0 <= i < outcomes.len() && outcomes[i] != ProbeStatus::Healthy;
        assert(rest[bad - 1] == outcomes[bad]);
        lemma_first_failure_exists(rest);
        let k = choose|k: int| is_first_failure(rest, k);
        assert(rest[k] == outcomes[k + 1]);
        assert forall|j: int| 0 <= j < k + 1 implies outcomes[j] == ProbeStatus::Healthy by {
            if j > 0 {
                assert(rest[j - 1] == outcomes[j]);
            }
        }
        assert(is_first_failure(outcomes, k + 1));
    }
}

/// Where not every status is `Healthy`, the first that is not is blamed.
pub proof fn lemma_failure_is_blamed(before: AggregateState, outcomes: Seq<ProbeStatus>)
    requires
        !all_healthy(outcomes),
    ensures
        exists|k: int|
            is_first_failure(outcomes, k) && before.fail_fast(outcomes) == before.blamed(
                outcomes[k],
            ),
{
    lemma_first_failure_exists(outcomes);
    let k = choose|k: int| is_first_failure(outcomes, k);
    lemma_first_failure_decides(before, outcomes, k);
}

/// Where a probe is dead, a refresh leaves a verdict that is not healthy,
/// whatever the other probes answer and whatever the verdict was before.
pub proof fn lemma_dead_probe_is_unhealthy(before: AggregateState, outcomes: Seq<ProbeStatus>)
    requires
        outcomes.contains(ProbeStatus::Dead),
    ensures
        !before.fail_fast(outcomes).is_healthy,
{
    lemma_failure_is_blamed(before, outcomes);
}

/// Where a probe is dead, a refresh leaves a verdict that is neither alive
/// nor healthy, whatever the other probes say of their readiness. One case is
/// left out: a probe that is alive but not ready comes before every dead one,
/// and the verdict before the refresh was alive. There readiness takes the
/// blame, no dead probe is reached, and liveness stays as it was.
pub proof fn lemma_dead_probe_vetoes(before: AggregateState, outcomes: Seq<ProbeStatus>)
    requires
        outcomes.contains(ProbeStatus::Dead),
        !(blames_readiness(outcomes) && before.is_alive),
    ensures
        !before.fail_fast(outcomes).is_alive,
        !before.fail_fast(outcomes).is_healthy,
{
    lemma_failure_is_blamed(before, outcomes);
}

} // verus!
