//! Units on the field and the effects that change them.
//!
//! Each effect is stated once as a function on sequences of units and once
//! as executable code on vectors, proved to compute that function. Effects
//! that strike one unit take the index of that unit; choosing the index is
//! left to the caller.

use crate::catalog::Minion;
use vstd::prelude::*;

verus! {

/// An enemy unit.
#[derive(Clone, Copy, Debug, PartialEq, Eq, Structural)]
pub struct Army {
    pub health: usize,
    pub max_health: usize,
    pub damage: usize,
    pub countdown: usize,
    pub max_countdown: usize,
}

impl Army {
    /// Whether the army attacks in the tick that starts now.
    pub open spec fn fires(self) -> bool {
        self.countdown <= 1
    }

    /// The army after its countdown step: one tick closer to its attack,
    /// or wound up again if it attacks now.
    pub open spec fn marched(self) -> Army {
        Army {
            countdown: if self.fires() {
                self.max_countdown
            } else {
                (self.countdown - 1) as usize
            },
            ..self
        }
    }

    /// Whether the army outlives a blow of the given strength.
    pub open spec fn survives(self, damage: usize) -> bool {
        self.health > damage
    }

    /// The army after a blow that it survives.
    pub open spec fn hit(self, damage: usize) -> Army {
        Army { health: (self.health - damage) as usize, ..self }
    }

    /// The army with its next attack put off by `ticks`.
    pub open spec fn delayed(self, ticks: usize) -> Army {
        Army { countdown: (self.countdown + ticks) as usize, ..self }
    }
}

impl Minion {
    /// Whether the minion acts in the tick that starts now.
    pub open spec fn ready(self) -> bool {
        self.countdown <= 1
    }

    /// The minion one tick closer to its action.
    pub open spec fn waited(self) -> Minion {
        Minion { countdown: (self.countdown - 1) as usize, ..self }
    }

    /// The minion wound up again after acting.
    pub open spec fn rearmed(self) -> Minion {
        Minion { countdown: self.max_countdown, ..self }
    }

    /// Whether the minion outlives a blow of the given strength.
    pub open spec fn survives(self, damage: usize) -> bool {
        self.health > damage
    }

    /// The minion after a blow that it survives.
    pub open spec fn hit(self, damage: usize) -> Minion {
        Minion { health: (self.health - damage) as usize, ..self }
    }

    /// The minion after a heal: health rises by `amount` but not past the
    /// maximum, and a minion already at or above its maximum is left alone.
    pub open spec fn healed(self, amount: usize) -> Minion {
        Minion {
            health: if self.health >= self.max_health {
                self.health
            } else if self.max_health - self.health < amount {
                self.max_health
            } else {
                (self.health + amount) as usize
            },
            ..self
        }
    }

    /// The minion after an overheal: health rises by `amount`, maximum or not.
    pub open spec fn overhealed(self, amount: usize) -> Minion {
        Minion { health: (self.health + amount) as usize, ..self }
    }

    /// The minion with its countdown cut by `amount`, stopping at zero.
    pub open spec fn hastened(self, amount: usize) -> Minion {
        Minion {
            countdown: if self.countdown <= amount {
                0
            } else {
                (self.countdown - amount) as usize
            },
            ..self
        }
    }
}

/// The armies after one of them took a blow: weakened if it survives,
/// gone from the line if it does not.
pub open spec fn struck(armies: Seq<Army>, target: int, damage: usize) -> Seq<Army> {
    if armies[target].survives(damage) {
        armies.update(target, armies[target].hit(damage))
    } else {
        armies.remove(target)
    }
}

/// The armies after every one of them took a blow: the survivors, weakened,
/// in their old order.
pub open spec fn blasted(armies: Seq<Army>, damage: usize) -> Seq<Army>
    decreases armies.len(),
{
    if armies.len() == 0 {
        armies
    } else {
        let before = blasted(armies.drop_last(), damage);
        if armies.last().survives(damage) {
            before.push(armies.last().hit(damage))
        } else {
            before
        }
    }
}

/// The armies after one of them was stalled.
pub open spec fn stalled(armies: Seq<Army>, target: int, ticks: usize) -> Seq<Army> {
    armies.update(target, armies[target].delayed(ticks))
}

/// The armies after every countdown moved one step.
pub open spec fn marched(armies: Seq<Army>) -> Seq<Army> {
    armies.map_values(|a: Army| a.marched())
}

/// The attacks that the armies launch in the tick that starts now: the
/// damage of each army that fires, in line order.
pub open spec fn volley(armies: Seq<Army>) -> Seq<usize>
    decreases armies.len(),
{
    if armies.len() == 0 {
        Seq::empty()
    } else {
        let before = volley(armies.drop_last());
        if armies.last().fires() {
            before.push(armies.last().damage)
        } else {
            before
        }
    }
}

/// The minions after one of them was healed.
pub open spec fn healed(minions: Seq<Minion>, target: int, amount: usize) -> Seq<Minion> {
    minions.update(target, minions[target].healed(amount))
}

/// The minions after all of them were healed.
pub open spec fn all_healed(minions: Seq<Minion>, amount: usize) -> Seq<Minion> {
    minions.map_values(|m: Minion| m.healed(amount))
}

/// The minions after all of them were overhealed.
pub open spec fn all_overhealed(minions: Seq<Minion>, amount: usize) -> Seq<Minion> {
    minions.map_values(|m: Minion| m.overhealed(amount))
}

/// The minions after one of them had its countdown cut.
pub open spec fn hastened(minions: Seq<Minion>, target: int, amount: usize) -> Seq<Minion> {
    minions.update(target, minions[target].hastened(amount))
}

/// The minions after all of them had their countdowns cut.
pub open spec fn all_hastened(minions: Seq<Minion>, amount: usize) -> Seq<Minion> {
    minions.map_values(|m: Minion| m.hastened(amount))
}

/// The minions after one of them took a blow: weakened if it survives,
/// gone from the line if it does not.
pub open spec fn wounded(minions: Seq<Minion>, target: int, damage: usize) -> Seq<Minion> {
    if minions[target].survives(damage) {
        minions.update(target, minions[target].hit(damage))
    } else {
        minions.remove(target)
    }
}

/// Deals `damage` to the army at `target`; an army whose health does not
/// exceed the damage leaves the line.
pub fn strike(armies: &mut Vec<Army>, target: usize, damage: usize)
    requires
        target < old(armies)@.len(),
    ensures
        final(armies)@ == struck(old(armies)@, target as int, damage),
{
    if armies[target].health <= damage {
        armies.remove(target);
    } else {
        armies[target].health = armies[target].health - damage;
    }
}

/// Deals `damage` to every army; those whose health does not exceed the
/// damage leave the line.
pub fn blast(armies: &mut Vec<Army>, damage: usize)
    ensures
        final(armies)@ == blasted(old(armies)@, damage),
{
    let mut survivors: Vec<Army> = Vec::new();
    let mut i: usize = 0;
    while i < armies.len()
        invariant
            i <= armies@.len(),
            armies@ == old(armies)@,
            survivors@ == blasted(armies@.take(i as int), damage),
        decreases armies@.len() - i,
    {
        let mut army = armies[i];
        proof {
            assert(armies@.take(i + 1).drop_last() == armies@.take(i as int));
        }
        if army.health > damage {
            army.health = army.health - damage;
            survivors.push(army);
        }
        i = i + 1;
    }
    proof {
        assert(armies@.take(i as int) == armies@);
    }
    *armies = survivors;
}

/// Adds `ticks` to the countdown of the army at `target`.
pub fn stall(armies: &mut Vec<Army>, target: usize, ticks: usize)
    requires
        target < old(armies)@.len(),
        old(armies)@[target as int].countdown + ticks <= usize::MAX,
    ensures
        final(armies)@ == stalled(old(armies)@, target as int, ticks),
{
    armies[target].countdown = armies[target].countdown + ticks;
}

/// Moves every army's countdown one step and collects the damage of each
/// army that fires.
pub fn march(armies: &mut Vec<Army>) -> (attacks: Vec<usize>)
    ensures
        final(armies)@ == marched(old(armies)@),
        attacks@ == volley(old(armies)@),
{
    let mut attacks: Vec<usize> = Vec::new();
    let mut i: usize = 0;
    while i < armies.len()
        invariant
            i <= armies@.len(),
            armies@.len() == old(armies)@.len(),
            forall|j: int| 0 <= j < i ==> armies@[j] == (#[trigger] old(armies)@[j]).marched(),
            forall|j: int| i <= j < armies@.len() ==> armies@[j] == old(armies)@[j],
            attacks@ == volley(old(armies)@.take(i as int)),
        decreases armies@.len() - i,
    {
        proof {
            assert(old(armies)@.take(i + 1).drop_last() == old(armies)@.take(i as int));
        }
        if armies[i].countdown <= 1 {
            armies[i].countdown = armies[i].max_countdown;
            attacks.push(armies[i].damage);
        } else {
            armies[i].countdown = armies[i].countdown - 1;
        }
        i = i + 1;
    }
    proof {
        assert(old(armies)@.take(i as int) == old(armies)@);
    }
    attacks
}

/// Heals the minion at `target`.
pub fn heal(minions: &mut Vec<Minion>, target: usize, amount: usize)
    requires
        target < old(minions)@.len(),
    ensures
        final(minions)@ == healed(old(minions)@, target as int, amount),
{
    let m = minions[target];
    if m.health >= m.max_health {
    } else if m.max_health - m.health < amount {
        minions[target].health = m.max_health;
    } else {
        minions[target].health = m.health + amount;
    }
}

/// Heals every minion.
pub fn heal_all(minions: &mut Vec<Minion>, amount: usize)
    ensures
        final(minions)@ == all_healed(old(minions)@, amount),
{
    let mut i: usize = 0;
    while i < minions.len()
        invariant
            i <= minions@.len(),
            minions@.len() == old(minions)@.len(),
            forall|j: int| 0 <= j < i ==> minions@[j] == (#[trigger] old(minions)@[j]).healed(amount),
            forall|j: int| i <= j < minions@.len() ==> minions@[j] == old(minions)@[j],
        decreases minions@.len() - i,
    {
        heal(minions, i, amount);
        i = i + 1;
    }
}

/// Overheals every minion.
pub fn overheal_all(minions: &mut Vec<Minion>, amount: usize)
    requires
        forall|j: int| 0 <= j < old(minions)@.len() ==> old(minions)@[j].health + amount <= usize::MAX,
    ensures
        final(minions)@ == all_overhealed(old(minions)@, amount),
{
    let mut i: usize = 0;
    while i < minions.len()
        invariant
            i <= minions@.len(),
            minions@.len() == old(minions)@.len(),
            forall|j: int| 0 <= j < i ==> minions@[j] == (#[trigger] old(minions)@[j]).overhealed(amount),
            forall|j: int| i <= j < minions@.len() ==> minions@[j] == old(minions)@[j],
            forall|j: int| 0 <= j < old(minions)@.len() ==> old(minions)@[j].health + amount <= usize::MAX,
        decreases minions@.len() - i,
    {
        minions[i].health = minions[i].health + amount;
        i = i + 1;
    }
}

/// Cuts the countdown of the minion at `target`.
pub fn hasten(minions: &mut Vec<Minion>, target: usize, amount: usize)
    requires
        target < old(minions)@.len(),
    ensures
        final(minions)@ == hastened(old(minions)@, target as int, amount),
{
    let countdown = minions[target].countdown;
    if countdown <= amount {
        minions[target].countdown = 0;
    } else {
        minions[target].countdown = countdown - amount;
    }
}

/// Cuts the countdown of every minion.
pub fn hasten_all(minions: &mut Vec<Minion>, amount: usize)
    ensures
        final(minions)@ == all_hastened(old(minions)@, amount),
{
    let mut i: usize = 0;
    while i < minions.len()
        invariant
            i <= minions@.len(),
            minions@.len() == old(minions)@.len(),
            forall|j: int| 0 <= j < i ==> minions@[j] == (#[trigger] old(minions)@[j]).hastened(amount),
            forall|j: int| i <= j < minions@.len() ==> minions@[j] == old(minions)@[j],
        decreases minions@.len() - i,
    {
        hasten(minions, i, amount);
        i = i + 1;
    }
}

/// Deals `damage` to the minion at `target`; a minion whose health does
/// not exceed the damage leaves the line.
pub fn wound(minions: &mut Vec<Minion>, target: usize, damage: usize)
    requires
        target < old(minions)@.len(),
    ensures
        final(minions)@ == wounded(old(minions)@, target as int, damage),
{
    if minions[target].health <= damage {
        minions.remove(target);
    } else {
        minions[target].health = minions[target].health - damage;
    }
}

} // verus!
