use vstd::prelude::*;
use crate::door::DoorId;
use crate::ranging::DoorState;
use crate::registry::{configures, Registry};

verus! {

/// The sensed state of one door in a report.
#[derive(Clone, Copy, Debug, PartialEq, Eq, Structural)]
pub struct DoorStatus {
    pub door: DoorId,
    pub state: DoorState,
}

/// The state of `d` in `entries`: that of its first entry.
pub open spec fn state_in(entries: Seq<DoorStatus>, d: DoorId) -> Option<DoorState>
    decreases entries.len(),
{
    if entries.len() == 0 {
        None
    } else if entries[0].door == d {
        Some(entries[0].state)
    } else {
        state_in(entries.drop_first(), d)
    }
}

/// The states of every configured door at one moment; never changed once built.
pub struct StatusReport {
    entries: Vec<DoorStatus>,
    generated_at_ms: u64,
}

proof fn lemma_state_in_finds(s: Seq<DoorStatus>, i: int, d: DoorId)
    requires
        0 <= i < s.len(),
        s[i].door == d,
        forall|j: int| 0 <= j < i ==> s[j].door != d,
    ensures
        state_in(s, d) == Some(s[i].state),
    decreases i,
{
    if i > 0 {
        lemma_state_in_finds(s.drop_first(), i - 1, d);
    }
}

impl StatusReport {
    /// One entry per configured door, in the order of the registry.
    pub closed spec fn view(&self) -> Seq<DoorStatus> {
        self.entries@
    }

    pub closed spec fn generated_at(&self) -> u64 {
        self.generated_at_ms
    }

    /// Puts the report together from the state sensed for each configured
    /// door, given in the order of the registry, and the time it was taken.
    pub fn snapshot(registry: &Registry, states: &Vec<DoorState>, generated_at_ms: u64) -> (r: StatusReport)
        requires
            states@.len() == registry@.len(),
        ensures
            r@.len() == registry@.len(),
            forall|i: int|
                0 <= i < r@.len() ==> r@[i] == (DoorStatus {
                    door: registry@[i].door,
                    state: states@[i],
                }),
            r.generated_at() == generated_at_ms,
            registry.wf() ==> forall|i: int|
                0 <= i < registry@.len() ==> state_in(r@, #[trigger] registry@[i].door) == Some(
                    states@[i],
                ),
    {
        let mut entries: Vec<DoorStatus> = Vec::new();
        let n = registry.len();
        let mut i: usize = 0;
        while i < n
            invariant
                n == registry@.len(),
                states@.len() == n,
                i <= n,
                entries@.len() == i,
                forall|k: int|
                    0 <= k < i ==> entries@[k] == (DoorStatus {
                        door: registry@[k].door,
                        state: states@[k],
                    }),
            decreases n - i,
        {
            let e = registry.entry(i);
            entries.push(DoorStatus { door: e.door, state: states[i] });
            i = i + 1;
        }
        let r = StatusReport { entries, generated_at_ms };
        proof {
            if registry.wf() {
                lemma_report_covers_registry(registry, states@, r);
            }
        }
        r
    }

    /// When the report was taken, in milliseconds of the caller's clock.
    pub fn generated_at_ms(&self) -> (r: u64)
        ensures
            r == self.generated_at(),
    {
        self.generated_at_ms
    }

    /// Number of doors in the report.
    pub fn len(&self) -> (r: usize)
        ensures
            r == self@.len(),
    {
        self.entries.len()
    }

    /// The `i`-th entry.
    pub fn entry(&self, i: usize) -> (r: DoorStatus)
        requires
            i < self@.len(),
        ensures
            r == self@[i as int],
    {
        self.entries[i]
    }

    /// The state reported for `d`, if the report holds it.
    pub fn state_of(&self, d: DoorId) -> (r: Option<DoorState>)
        ensures
            r == state_in(self@, d),
    {
        let n = self.entries.len();
        let mut i: usize = 0;
        assert(self@.subrange(0, n as int) =~= self@);
        while i < n
            invariant
                n == self@.len(),
                self@ == self.entries@,
                i <= n,
                state_in(self@, d) == state_in(self@.subrange(i as int, n as int), d),
            decreases n - i,
        {
            proof {
                assert(self@.subrange(i as int, n as int).drop_first() =~= self@.subrange(
                    i + 1,
                    n as int,
                ));
            }
            if self.entries[i].door == d {
                return Some(self.entries[i].state);
            }
            i = i + 1;
        }
        None
    }
}

/// A report taken over a registry holds every configured door with exactly
/// the state sensed for it, an unknown state included, and nothing else.
pub proof fn lemma_report_covers_registry(registry: &Registry, states: Seq<DoorState>, report: StatusReport)
    requires
        registry.wf(),
        states.len() == registry@.len(),
        report@.len() == registry@.len(),
        forall|i: int|
            0 <= i < report@.len() ==> report@[i] == (DoorStatus {
                door: registry@[i].door,
                state: states[i],
            }),
    ensures
        forall|i: int|
            0 <= i < registry@.len() ==> state_in(report@, #[trigger] registry@[i].door) == Some(
                states[i],
            ),
        forall|d: DoorId| !configures(registry@, d) ==> state_in(report@, d) is None,
{
    assert forall|i: int| 0 <= i < registry@.len() implies state_in(
        report@,
        #[trigger] registry@[i].door,
    ) == Some(states[i]) by {
        lemma_state_in_finds(report@, i, registry@[i].door);
    }
    assert forall|d: DoorId| !configures(registry@, d) implies state_in(report@, d) is None by {
        lemma_state_in_absent(report@, d);
    }
}

proof fn lemma_state_in_absent(s: Seq<DoorStatus>, d: DoorId)
    requires
        forall|j: int| 0 <= j < s.len() ==> s[j].door != d,
    ensures
        state_in(s, d) is None,
    decreases s.len(),
{
    if s.len() > 0 {
        lemma_state_in_absent(s.drop_first(), d);
    }
}

} // verus!
