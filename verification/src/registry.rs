//! The probe registry: probes by name, in the order of their first
//! registration.

use crate::probe::{answers, ask, examine, shows, Capability, ProbeStatus, StateChecker};
use crate::text::same_text;
use crate::verdict::{all_healthy, is_first_failure};
use vstd::prelude::*;

verus! {

/// What a registry holds: the names, and beside each name its probe.
pub struct RegistryView<P> {
    pub names: Seq<Seq<char>>,
    pub probes: Seq<P>,
}

impl<P> RegistryView<P> {
    /// Every name has its probe, and no name occurs twice.
    pub open spec fn wf(self) -> bool {
        &&& self.names.len() == self.probes.len()
        &&& self.names.no_duplicates()
    }

    /// The registry with nothing in it.
    pub open spec fn empty() -> RegistryView<P> {
        RegistryView { names: Seq::empty(), probes: Seq::empty() }
    }

    /// Whether `answer` is an answer that the probe at `place` gives to the
    /// question `which`.
    pub open spec fn answers_at(self, place: int, which: Capability, answer: bool) -> bool
        where P: StateChecker
    {
        answers(&self.probes[place], which, answer)
    }

    /// Whether every probe answers `true` to the question `which`.
    pub open spec fn all_answer_true(self, which: Capability) -> bool
        where P: StateChecker
    {
        forall|place: int| 0 <= place < self.probes.len() ==> self.answers_at(place, which, true)
    }

    /// Whether some probe answers `false` to the question `which`.
    pub open spec fn some_answer_false(self, which: Capability) -> bool
        where P: StateChecker
    {
        exists|place: int| 0 <= place < self.probes.len() && self.answers_at(place, which, false)
    }

    /// Whether `status` is what a visit to the probe at `place` records.
    pub open spec fn shows_at(self, place: int, status: ProbeStatus) -> bool
        where P: StateChecker
    {
        shows(&self.probes[place], status)
    }

    /// Whether `observed` is what a refresh can record of these probes: a
    /// fail-fast walk over them, each status the one that the probe at its
    /// place shows.
    pub open spec fn records(self, observed: Seq<ProbeStatus>) -> bool
        where P: StateChecker
    {
        &&& is_fail_fast_walk(observed, self.names.len())
        &&& forall|place: int|
            0 <= place < observed.len() ==> self.shows_at(place, observed[place])
    }

    /// The registry after `probe` has been registered under `name`: a name
    /// that is already there keeps its place and gets the new probe, a new
    /// name goes to the end.
    pub open spec fn registered(self, name: Seq<char>, probe: P) -> RegistryView<P> {
        if self.names.contains(name) {
            RegistryView {
                names: self.names,
                probes: self.probes.update(self.names.index_of(name), probe),
            }
        } else {
            RegistryView { names: self.names.push(name), probes: self.probes.push(probe) }
        }
    }
}

/// Registration keeps a registry well formed, and adds a place only for a
/// name that was not there.
pub proof fn lemma_registered_wf<P>(registry: RegistryView<P>, name: Seq<char>, probe: P)
    requires
        registry.wf(),
    ensures
        registry.registered(name, probe).wf(),
        registry.registered(name, probe).names.len() == if registry.names.contains(name) {
            registry.names.len()
        } else {
            registry.names.len() + 1
        },
{
    let after = registry.registered(name, probe);
    if registry.names.contains(name) {
        let k = registry.names.index_of(name);
        assert(0 <= k < registry.names.len());
    } else {
        assert forall|i: int, j: int|
            0 <= i < after.names.len() && 0 <= j < after.names.len() && i != j implies after.names[i]
            != after.names[j] by {
            if i < registry.names.len() && j < registry.names.len() {
            } else if i < registry.names.len() {
                assert(registry.names[i] == after.names[i]);
            } else {
                assert(registry.names[j] == after.names[j]);
            }
        }
    }
}

/// Registering under a name that is taken replaces the probe: the names and
/// their order stay, the new probe stands where the old one stood, and every
/// other probe is the one it was. The old probe is in the registry no more,
/// so only the new one is asked from then on.
pub proof fn lemma_register_replaces<P>(
    registry: RegistryView<P>,
    name: Seq<char>,
    probe: P,
    place: int,
)
    requires
        registry.wf(),
        0 <= place < registry.names.len(),
        registry.names[place] == name,
    ensures
        registry.registered(name, probe).names == registry.names,
        registry.registered(name, probe).probes == registry.probes.update(place, probe),
        registry.registered(name, probe).probes[place] == probe,
{
    assert(registry.names.index_of(name) == place);
}

/// No registration loses a probe: whatever was registered under another name
/// is where it was, and the name just registered is there with its probe.
pub proof fn lemma_register_keeps_others<P>(
    registry: RegistryView<P>,
    name: Seq<char>,
    probe: P,
    other: int,
)
    requires
        registry.wf(),
        0 <= other < registry.names.len(),
        registry.names[other] != name,
    ensures
        registry.registered(name, probe).names[other] == registry.names[other],
        registry.registered(name, probe).probes[other] == registry.probes[other],
        registry.registered(name, probe).names.contains(name),
        registry.registered(name, probe).probes[registry.registered(name, probe).names.index_of(
            name,
        )] == probe,
{
    let after = registry.registered(name, probe);
    lemma_registered_wf(registry, name, probe);
    if registry.names.contains(name) {
        let place = registry.names.index_of(name);
        assert(after.names[place] == name);
        assert(after.names.index_of(name) == place);
    } else {
        let place = registry.names.len() as int;
        assert(after.names[place] == name);
        assert(after.names.index_of(name) == place);
    }
}

/// Whether `observed` can be what a fail-fast walk over `count` probes
/// records: it visits the probes in order, one status each, and stops behind
/// the first that is not `Healthy`.
pub open spec fn is_fail_fast_walk(observed: Seq<ProbeStatus>, count: nat) -> bool {
    &&& observed.len() <= count
    &&& forall|i: int| 0 <= i < observed.len() - 1 ==> observed[i] == ProbeStatus::Healthy
    &&& observed.len() < count ==> observed.len() > 0 && observed.last() != ProbeStatus::Healthy
}

/// A fail-fast walk that met a failure ends with it: the last status is the
/// first that is not `Healthy`.
pub proof fn lemma_walk_ends_at_failure(observed: Seq<ProbeStatus>, count: nat)
    requires
        is_fail_fast_walk(observed, count),
        !all_healthy(observed),
    ensures
        is_first_failure(observed, observed.len() - 1),
{
}

/// Whether every answer is `true`.
pub open spec fn all_hold(answers: Seq<bool>) -> bool {
    forall|i: int| 0 <= i < answers.len() ==> answers[i]
}

/// The conjunction of the answers of one pass.
pub fn conjunction(answers: &Vec<bool>) -> (holds: bool)
    ensures
        holds == all_hold(answers@),
{
    let n: usize = answers.len();
    let mut i: usize = 0;
    while i < n
        invariant
            n == answers.len(),
            i <= n,
            forall|j: int| 0 <= j < i ==> answers@[j],
        decreases n - i,
    {
        if !answers[i] {
            return false;
        }
        i = i + 1;
    }
    true
}

#[derive(Debug)]
struct ProbeEntry<P> {
    name: String,
    probe: P,
}

/// Probes by name. Registration is the only change; nothing is ever removed.
#[derive(Debug)]
pub struct ProbeRegistry<P: StateChecker> {
    entries: Vec<ProbeEntry<P>>,
}

impl<P: StateChecker> View for ProbeRegistry<P> {
    type V = RegistryView<P>;

    closed spec fn view(&self) -> RegistryView<P> {
        RegistryView {
            names: Seq::new(self.entries@.len(), |i: int| self.entries@[i].name@),
            probes: Seq::new(self.entries@.len(), |i: int| self.entries@[i].probe),
        }
    }
}

impl<P: StateChecker> ProbeRegistry<P> {
    /// What holds of every registry: each name has its probe, and no name
    /// occurs twice.
    #[verifier::type_invariant]
    pub open spec fn well_formed(self) -> bool {
        self@.wf()
    }

    /// A registry without probes.
    pub fn new() -> (registry: ProbeRegistry<P>)
        ensures
            registry@ == RegistryView::<P>::empty(),
    {
        let registry = ProbeRegistry { entries: Vec::new() };
        assert(registry@.names =~= Seq::empty());
        assert(registry@.probes =~= Seq::empty());
        registry
    }

    /// The number of probes.
    pub fn len(&self) -> (count: usize)
        ensures
            count == self@.names.len(),
    {
        self.entries.len()
    }

    /// The name and the probe at `place`, counted from the first
    /// registration, if there are that many.
    pub fn entry(&self, place: usize) -> (entry: Option<(&str, &P)>)
        ensures
            match entry {
                Some((name, probe)) => place < self@.names.len() && name@
                    == self@.names[place as int] && *probe == self@.probes[place as int],
                None => place >= self@.names.len(),
            },
    {
        if place < self.entries.len() {
            Some((self.entries[place].name.as_str(), &self.entries[place].probe))
        } else {
            None
        }
    }

    /// The place of `name`, if a probe is registered under it.
    pub fn position(&self, name: &str) -> (place: Option<usize>)
        ensures
            match place {
                Some(i) => i < self@.names.len() && self@.names[i as int] == name@,
                None => !self@.names.contains(name@),
            },
    {
        let n: usize = self.entries.len();
        let mut i: usize = 0;
        while i < n
            invariant
                n == self.entries@.len(),
                i <= n,
                forall|j: int| 0 <= j < i ==> self@.names[j] != name@,
            decreases n - i,
        {
            if same_text(self.entries[i].name.as_str(), name) {
                return Some(i);
            }
            i = i + 1;
        }
        None
    }

    /// Whether a probe is registered under `name`.
    pub fn contains(&self, name: &str) -> (found: bool)
        ensures
            found == self@.names.contains(name@),
    {
        self.position(name).is_some()
    }

    /// Registers `probe` under `name`. A probe already registered under that
    /// name is replaced and dropped; any other probe stays as it is.
    pub fn register(&mut self, name: String, probe: P)
        ensures
            final(self)@ == old(self)@.registered(name@, probe),
    {
        proof {
            use_type_invariant(&*self);
        }
        let ghost before = self@;
        let ghost after = before.registered(name@, probe);
        let place = self.position(name.as_str());
        // The entries leave the registry while they change and come back whole.
        let mut taken = ProbeRegistry::new();
        core::mem::swap(self, &mut taken);
        let mut entries = taken.entries;
        match place {
            Some(i) => {
                assert(before.names.index_of(name@) == i);
                entries[i] = ProbeEntry { name, probe };
            },
            None => {
                entries.push(ProbeEntry { name, probe });
            },
        }
        proof {
            assert(Seq::new(entries@.len(), |j: int| entries@[j].name@) =~= after.names);
            assert(Seq::new(entries@.len(), |j: int| entries@[j].probe) =~= after.probes);
            lemma_registered_wf(before, name@, probe);
        }
        *self = ProbeRegistry { entries };
    }

    /// Walks the probes in order and records the status of each, stopping
    /// behind the first probe that is dead or not ready: no probe after it is
    /// asked anything. Each status recorded is what the probe at its place
    /// showed.
    pub fn examine_all(&self) -> (observed: Vec<ProbeStatus>)
        ensures
            is_fail_fast_walk(observed@, self@.names.len()),
            forall|place: int|
                0 <= place < observed@.len() ==> self@.shows_at(place, observed@[place]),
    {
        let n: usize = self.entries.len();
        let mut observed: Vec<ProbeStatus> = Vec::new();
        let mut i: usize = 0;
        while i < n
            invariant
                n == self.entries@.len(),
                i <= n,
                observed@.len() == i,
                forall|j: int| 0 <= j < i ==> observed@[j] == ProbeStatus::Healthy,
                forall|j: int| 0 <= j < i ==> self@.shows_at(j, observed@[j]),
            decreases n - i,
        {
            let status = examine(&self.entries[i].probe);
            assert(self@.shows_at(i as int, status));
            observed.push(status);
            if !status.is_healthy() {
                return observed;
            }
            i = i + 1;
        }
        observed
    }

    /// Puts one question to every probe, in order, and records each answer:
    /// the pass goes on behind a `false`. Each answer recorded is the answer
    /// of the probe at its place.
    pub fn ask_all(&self, which: Capability) -> (answers: Vec<bool>)
        ensures
            answers@.len() == self@.names.len(),
            forall|place: int|
                0 <= place < answers@.len() ==> self@.answers_at(place, which, answers@[place]),
    {
        let n: usize = self.entries.len();
        let mut answers: Vec<bool> = Vec::new();
        let mut i: usize = 0;
        while i < n
            invariant
                n == self.entries@.len(),
                i <= n,
                answers@.len() == i,
                forall|j: int| 0 <= j < i ==> self@.answers_at(j, which, answers@[j]),
            decreases n - i,
        {
            let answer = ask(&self.entries[i].probe, which);
            assert(self@.answers_at(i as int, which, answer));
            answers.push(answer);
            i = i + 1;
        }
        answers
    }

    /// Whether every probe answers `true` to the question, each asked now. It
    /// is `true` where every probe answered `true`, which is so with no probe
    /// at all, and `false` where some probe answered `false`.
    pub fn check_all(&self, which: Capability) -> (holds: bool)
        ensures
            self@.names.len() == 0 ==> holds,
            holds ==> self@.all_answer_true(which),
            !holds ==> self@.some_answer_false(which),
    {
        proof {
            use_type_invariant(self);
        }
        let answers = self.ask_all(which);
        let holds = conjunction(&answers);
        proof {
            let view = self@;
            if holds {
                assert forall|place: int| 0 <= place < view.probes.len() implies view.answers_at(
                    place,
                    which,
                    true,
                ) by {
                    assert(answers@[place]);
                    assert(view.answers_at(place, which, answers@[place]));
                }
            } else {
                let place = choose|i: int| 0 <= i < answers@.len() && !answers@[i];
                assert(view.answers_at(place, which, answers@[place]));
            }
        }
        holds
    }
}

} // verus!
