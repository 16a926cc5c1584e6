//! The roster: the units the player owns, in draft order.

use crate::catalog::{Class, Minion, MinionType};
use vstd::prelude::*;

verus! {

/// One owned unit: its class and the bounty it has earned.
#[derive(Clone, Copy, Debug, PartialEq, Eq, Structural)]
pub struct RosterEntry {
    pub class: Class,
    pub bounty: usize,
}

/// The roster. Slot `i` is the `i`-th unit drafted among those still owned.
pub struct Party {
    pub entries: Vec<RosterEntry>,
}

impl View for Party {
    type V = Seq<RosterEntry>;

    open spec fn view(&self) -> Seq<RosterEntry> {
        self.entries@
    }
}

/// The roster after every unit earned one more point of bounty.
pub open spec fn rewarded(roster: Seq<RosterEntry>) -> Seq<RosterEntry> {
    roster.map_values(|e: RosterEntry| RosterEntry { bounty: (e.bounty + 1) as usize, ..e })
}

/// The roster as it lines up for a fight: a fresh minion for each entry,
/// in roster order.
pub open spec fn lineup(roster: Seq<RosterEntry>) -> Seq<Minion> {
    roster.map_values(|e: RosterEntry| e.class.fresh())
}

/// Puts a fresh minion of the given type at the end of the line.
pub fn spawn_minion(minions: &mut Vec<Minion>, minion: &MinionType)
    ensures
        final(minions)@ == old(minions)@.push(
            Minion {
                class: minion.class,
                health: minion.max_health,
                max_health: minion.max_health,
                countdown: minion.start_countdown,
                max_countdown: minion.max_countdown,
            },
        ),
        minion@ == minion.class.definition() ==> final(minions)@ == old(minions)@.push(
            minion.class.fresh(),
        ),
{
    minions.push(minion.get_minion());
}

impl Party {
    /// An empty roster.
    pub fn new() -> (party: Party)
        ensures
            party@ == Seq::<RosterEntry>::empty(),
    {
        Party { entries: Vec::new() }
    }

    /// The number of units owned.
    pub fn len(&self) -> (n: usize)
        ensures
            n == self@.len(),
    {
        self.entries.len()
    }

    /// Adds a unit of the given class, with no bounty, in the last slot.
    pub fn push(&mut self, class: Class)
        ensures
            final(self)@ == old(self)@.push(RosterEntry { class, bounty: 0 }),
    {
        self.entries.push(RosterEntry { class, bounty: 0 });
    }

    /// Gives up the unit in the given slot and returns it. The units behind
    /// it move up one slot. A slot that holds no unit changes nothing.
    pub fn remove(&mut self, slot: usize) -> (removed: Option<RosterEntry>)
        ensures
            slot < old(self)@.len() ==> removed == Some(old(self)@[slot as int]) && final(self)@
                == old(self)@.remove(slot as int),
            slot >= old(self)@.len() ==> removed is None && final(self)@ == old(self)@,
    {
        if slot < self.entries.len() {
            Some(self.entries.remove(slot))
        } else {
            None
        }
    }

    /// Adds one point of bounty to every unit.
    pub fn reward(&mut self)
        requires
            forall|i: int| 0 <= i < old(self)@.len() ==> old(self)@[i].bounty < usize::MAX,
        ensures
            final(self)@ == rewarded(old(self)@),
    {
        let mut i: usize = 0;
        while i < self.entries.len()
            invariant
                i <= self@.len(),
                self@.len() == old(self)@.len(),
                forall|j: int|
                    0 <= j < i ==> self@[j] == (RosterEntry {
                        bounty: (old(self)@[j].bounty + 1) as usize,
                        ..old(self)@[j]
                    }),
                forall|j: int| i <= j < self@.len() ==> self@[j] == old(self)@[j],
                forall|j: int| 0 <= j < old(self)@.len() ==> old(self)@[j].bounty < usize::MAX,
            decreases self@.len() - i,
        {
            self.entries[i].bounty = self.entries[i].bounty + 1;
            i = i + 1;
        }
    }

    /// The roster as it lines up: a fresh minion for each entry.
    pub fn spawn_minions(&self) -> (minions: Vec<Minion>)
        ensures
            minions@ == lineup(self@),
    {
        let mut minions: Vec<Minion> = Vec::new();
        let mut i: usize = 0;
        while i < self.entries.len()
            invariant
                i <= self@.len(),
                minions@ == lineup(self@.take(i as int)),
            decreases self@.len() - i,
        {
            let minion_type = self.entries[i].class.get_type();
            spawn_minion(&mut minions, &minion_type);
            proof {
                assert(self@.take(i + 1) == self@.take(i as int).push(self@[i as int]));
            }
            i = i + 1;
        }
        proof {
            assert(self@.take(i as int) == self@);
        }
        minions
    }
}

} // verus!
