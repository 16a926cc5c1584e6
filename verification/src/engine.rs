//! The combat engine: one tick, phase by phase.

use crate::battle::{
    ability_phase, all_bolstered, all_mended, all_quickened, assaulted, capped, mended,
    quickened, settle_fits, settled, tick, total, turn, turn_fits, turns, Battle, Field, Outcome,
    Pending, Picks, Queues,
};
use crate::bounds::{
    lemma_assaulted_read_prefix, lemma_mended_read_prefix, lemma_quickened_read_prefix,
    lemma_total_prefix, lemma_turn_spare, lemma_turns_read_prefix, lemma_turns_spare,
};
use crate::catalog::{Ability, Minion};
use crate::combat::{
    blast, hasten, hasten_all, heal, heal_all, march, marched, overheal_all, stall, strike,
    volley, wound,
};
use crate::dice::sample_below;
use rand::rngs::StdRng;
use vstd::prelude::*;

verus! {

impl Pending {
    /// An empty set of queues.
    pub fn new() -> (pending: Pending)
        ensures
            pending@ == Queues::empty(),
    {
        Pending {
            heals: Vec::new(),
            aoe_heals: Vec::new(),
            aoe_overheals: Vec::new(),
            reductions: Vec::new(),
            aoe_reductions: Vec::new(),
        }
    }
}

/// Applies the queued single-target heals, each on a minion drawn from
/// `rng`.
fn mend(minions: &mut Vec<Minion>, rng: &mut StdRng, amounts: &Vec<usize>) -> (targets: Ghost<
    Seq<int>,
>)
    ensures
        mended(old(minions)@, amounts@, targets@) == Some(final(minions)@),
        capped(old(minions)@, final(minions)@),
{
    let ghost targets: Seq<int> = Seq::empty();
    let mut k: usize = 0;
    while k < amounts.len()
        invariant
            k <= amounts@.len(),
            targets.len() == k,
            mended(old(minions)@, amounts@.take(k as int), targets) == Some(minions@),
            capped(old(minions)@, minions@),
        decreases amounts@.len() - k,
    {
        let ghost pick: int = 0;
        if minions.len() > 0 {
            let target = sample_below(rng, minions.len());
            heal(minions, target, amounts[k]);
            proof {
                pick = target as int;
            }
        }
        proof {
            let longer = targets.push(pick);
            lemma_mended_read_prefix(old(minions)@, amounts@.take(k as int), targets, longer);
            assert(amounts@.take(k + 1).drop_last() == amounts@.take(k as int));
            targets = longer;
        }
        k = k + 1;
    }
    proof {
        assert(amounts@.take(k as int) == amounts@);
    }
    Ghost(targets)
}

/// Applies the queued heals for all.
fn mend_all(minions: &mut Vec<Minion>, amounts: &Vec<usize>)
    ensures
        final(minions)@ == all_mended(old(minions)@, amounts@),
        capped(old(minions)@, final(minions)@),
{
    let mut k: usize = 0;
    while k < amounts.len()
        invariant
            k <= amounts@.len(),
            minions@ == all_mended(old(minions)@, amounts@.take(k as int)),
            capped(old(minions)@, minions@),
        decreases amounts@.len() - k,
    {
        proof {
            assert(amounts@.take(k + 1).drop_last() == amounts@.take(k as int));
        }
        heal_all(minions, amounts[k]);
        k = k + 1;
    }
    proof {
        assert(amounts@.take(k as int) == amounts@);
    }
}

/// Applies the queued overheals for all.
fn bolster_all(minions: &mut Vec<Minion>, amounts: &Vec<usize>)
    requires
        forall|j: int|
            0 <= j < old(minions)@.len() ==> (#[trigger] old(minions)@[j]).health + total(
                amounts@,
            ) <= usize::MAX,
    ensures
        final(minions)@ == all_bolstered(old(minions)@, amounts@),
{
    let mut k: usize = 0;
    while k < amounts.len()
        invariant
            k <= amounts@.len(),
            minions@ == all_bolstered(old(minions)@, amounts@.take(k as int)),
            forall|j: int|
                0 <= j < minions@.len() ==> (#[trigger] minions@[j]).health + total(amounts@)
                    - total(amounts@.take(k as int)) <= usize::MAX,
        decreases amounts@.len() - k,
    {
        proof {
            assert(amounts@.take(k + 1).drop_last() == amounts@.take(k as int));
            lemma_total_prefix(amounts@, k + 1);
        }
        overheal_all(minions, amounts[k]);
        k = k + 1;
    }
    proof {
        assert(amounts@.take(k as int) == amounts@);
    }
}

/// Applies the queued single-target countdown cuts, each on a minion drawn
/// from `rng`.
fn quicken(minions: &mut Vec<Minion>, rng: &mut StdRng, amounts: &Vec<usize>) -> (targets: Ghost<
    Seq<int>,
>)
    ensures
        quickened(old(minions)@, amounts@, targets@) == Some(final(minions)@),
{
    let ghost targets: Seq<int> = Seq::empty();
    let mut k: usize = 0;
    while k < amounts.len()
        invariant
            k <= amounts@.len(),
            targets.len() == k,
            quickened(old(minions)@, amounts@.take(k as int), targets) == Some(minions@),
            minions@.len() == old(minions)@.len(),
        decreases amounts@.len() - k,
    {
        let ghost pick: int = 0;
        if minions.len() > 0 {
            let target = sample_below(rng, minions.len());
            hasten(minions, target, amounts[k]);
            proof {
                pick = target as int;
            }
        }
        proof {
            let longer = targets.push(pick);
            lemma_quickened_read_prefix(old(minions)@, amounts@.take(k as int), targets, longer);
            assert(amounts@.take(k + 1).drop_last() == amounts@.take(k as int));
            targets = longer;
        }
        k = k + 1;
    }
    proof {
        assert(amounts@.take(k as int) == amounts@);
    }
    Ghost(targets)
}

/// Applies the queued countdown cuts for all.
fn quicken_all(minions: &mut Vec<Minion>, amounts: &Vec<usize>)
    ensures
        final(minions)@ == all_quickened(old(minions)@, amounts@),
{
    let mut k: usize = 0;
    while k < amounts.len()
        invariant
            k <= amounts@.len(),
            minions@ == all_quickened(old(minions)@, amounts@.take(k as int)),
        decreases amounts@.len() - k,
    {
        proof {
            assert(amounts@.take(k + 1).drop_last() == amounts@.take(k as int));
        }
        hasten_all(minions, amounts[k]);
        k = k + 1;
    }
    proof {
        assert(amounts@.take(k as int) == amounts@);
    }
}

impl Battle {
    /// A field with nobody on it.
    pub fn new() -> (battle: Battle)
        ensures
            battle@ == Field::empty(),
    {
        Battle { minions: Vec::new(), armies: Vec::new() }
    }

    /// Whether the field has room for one tick.
    pub fn has_room(&self) -> (roomy: bool)
        ensures
            roomy == self@.roomy(),
    {
        let n = self.minions.len();
        if n > usize::MAX - 20 {
            return false;
        }
        let mut i: usize = 0;
        while i < n
            invariant
                i <= n == self.minions@.len(),
                n + 20 <= usize::MAX,
                forall|j: int|
                    0 <= j < i ==> (#[trigger] self.minions@[j]).health + n <= usize::MAX
                        && self.minions@[j].max_health + n <= usize::MAX,
            decreases n - i,
        {
            if self.minions[i].health > usize::MAX - n || self.minions[i].max_health > usize::MAX
                - n {
                assert(self@.minions[i as int] == self.minions@[i as int]);
                return false;
            }
            i = i + 1;
        }
        if self.armies.len() == 0 {
            return true;
        }
        if n > usize::MAX / 3 {
            assert(self@.armies[0].countdown + 3 * n > usize::MAX);
            return false;
        }
        let reach = 3 * n;
        let mut k: usize = 0;
        while k < self.armies.len()
            invariant
                k <= self.armies@.len(),
                n == self.minions@.len(),
                n + 20 <= usize::MAX,
                reach == 3 * n,
                forall|j: int|
                    0 <= j < n ==> (#[trigger] self.minions@[j]).health + n <= usize::MAX
                        && self.minions@[j].max_health + n <= usize::MAX,
                forall|j: int|
                    0 <= j < k ==> (#[trigger] self.armies@[j]).countdown + reach <= usize::MAX
                        && self.armies@[j].max_countdown + reach <= usize::MAX,
            decreases self.armies@.len() - k,
        {
            if self.armies[k].countdown > usize::MAX - reach || self.armies[k].max_countdown
                > usize::MAX - reach {
                assert(self@.armies[k as int] == self.armies@[k as int]);
                return false;
            }
            k = k + 1;
        }
        true
    }

    /// Whether the minion at `index` needs an army picked for its turn: it
    /// acts this tick, its ability strikes a single army, and an army is
    /// left to strike.
    pub fn needs_aim(&self, index: usize) -> (needed: bool)
        requires
            index < self.minions@.len(),
        ensures
            needed == (self.armies@.len() > 0 && self.minions@[index as int].ready()
                && self.minions@[index as int].class.ability().aimed()),
    {
        if self.armies.len() == 0 || self.minions[index].countdown > 1 {
            false
        } else {
            match self.minions[index].class.get_type().ability {
                Ability::SingleDamage(_) => true,
                Ability::Stall(_) => true,
                Ability::InstantKill => true,
                _ => false,
            }
        }
    }

    /// The turn of the minion at `index`, with `aim` as the army picked
    /// for it.
    pub fn act(&mut self, index: usize, aim: usize, pending: &mut Pending)
        requires
            index < old(self).minions@.len(),
            turn(old(self)@, old(pending)@, index as int, aim as int) is Some,
            turn_fits(old(self)@, index as int, aim as int),
        ensures
            turn(old(self)@, old(pending)@, index as int, aim as int) == Some(
                (final(self)@, final(pending)@),
            ),
    {
        if self.armies.len() == 0 {
            return ;
        }
        if self.minions[index].countdown > 1 {
            self.minions[index].countdown = self.minions[index].countdown - 1;
            return ;
        }
        self.minions[index].countdown = self.minions[index].max_countdown;
        match self.minions[index].class.get_type().ability {
            Ability::SingleDamage(damage) => strike(&mut self.armies, aim, damage),
            Ability::AoeDamage(damage) => blast(&mut self.armies, damage),
            Ability::SingleHeal(amount) => pending.heals.push(amount),
            Ability::AoeHeal(amount) => pending.aoe_heals.push(amount),
            Ability::AoeOverheal(amount) => pending.aoe_overheals.push(amount),
            Ability::SingleReduce(amount) => pending.reductions.push(amount),
            Ability::AoeReduce(amount) => pending.aoe_reductions.push(amount),
            Ability::Summon(class) => {
                let recruit = class.get_type().get_minion();
                self.minions.push(recruit);
            },
            Ability::Stall(ticks) => stall(&mut self.armies, aim, ticks),
            Ability::InstantKill => {
                self.armies.remove(aim);
            },
        }
    }

    /// The ability phase: every minion that is on the field now takes its
    /// turn, in line order; where a turn needs an army to strike, one is
    /// drawn from `rng`.
    ///
    /// The result is what the model gives for some choice of aims, each
    /// within the line of armies as it stood at that turn.
    pub fn ability_phase(&mut self, rng: &mut StdRng, pending: &mut Pending)
        requires
            old(self)@.roomy(),
        ensures
            exists|aims: Seq<int>|
                ability_phase(old(self)@, old(pending)@, aims) == Some(
                    (final(self)@, final(pending)@),
                ),
            final(self)@.spare(old(self)@.minions.len() as int, 0),
            total(final(pending)@.aoe_overheals) <= total(old(pending)@.aoe_overheals) + old(
                self,
            )@.minions.len(),
    {
        let count = self.minions.len();
        let ghost aims: Seq<int> = Seq::empty();
        let mut index: usize = 0;
        while index < count
            invariant
                index <= count,
                count == old(self)@.minions.len(),
                old(self)@.roomy(),
                aims.len() == index,
                turns(old(self)@, old(pending)@, aims, index as nat) == Some((self@, pending@)),
            decreases count - index,
        {
            proof {
                lemma_turns_spare(
                    old(self)@,
                    old(pending)@,
                    aims,
                    index as nat,
                    count as int,
                    self@,
                    pending@,
                );
            }
            let aim = if self.needs_aim(index) {
                sample_below(rng, self.armies.len())
            } else {
                0
            };
            proof {
                let longer = aims.push(aim as int);
                lemma_turns_read_prefix(old(self)@, old(pending)@, aims, longer, index as nat);
                aims = longer;
                match turn(self@, pending@, index as int, aim as int) {
                    Some((f2, q2)) => {
                        lemma_turn_spare(
                            self@,
                            pending@,
                            index as int,
                            aim as int,
                            count as int,
                            count - index,
                            f2,
                            q2,
                        );
                    },
                    None => {},
                }
            }
            self.act(index, aim, pending);
            index = index + 1;
        }
        proof {
            lemma_turns_spare(
                old(self)@,
                old(pending)@,
                aims,
                count as nat,
                count as int,
                self@,
                pending@,
            );
            assert(ability_phase(old(self)@, old(pending)@, aims) == Some((self@, pending@)));
        }
    }

    /// Applies the queued effects on minions: single heals, heals for all,
    /// overheals for all, single countdown cuts, countdown cuts for all.
    /// Each single-target effect lands on a minion drawn from `rng`.
    pub fn settle(&mut self, rng: &mut StdRng, pending: &Pending)
        requires
            settle_fits(old(self)@.minions, pending@),
        ensures
            exists|heals: Seq<int>, reductions: Seq<int>|
                settled(old(self)@.minions, pending@, heals, reductions) == Some(
                    final(self)@.minions,
                ),
            final(self)@.armies == old(self)@.armies,
    {
        let heals = mend(&mut self.minions, rng, &pending.heals);
        mend_all(&mut self.minions, &pending.aoe_heals);
        bolster_all(&mut self.minions, &pending.aoe_overheals);
        let reductions = quicken(&mut self.minions, rng, &pending.reductions);
        quicken_all(&mut self.minions, &pending.aoe_reductions);
        proof {
            assert(settled(old(self)@.minions, pending@, heals@, reductions@) == Some(
                self@.minions,
            ));
        }
    }

    /// Applies the army attacks, each on a minion drawn from `rng`. A
    /// minion whose health does not exceed the damage leaves the field;
    /// once none is left the remaining attacks are dropped.
    pub fn assault(&mut self, rng: &mut StdRng, attacks: &Vec<usize>)
        ensures
            exists|targets: Seq<int>|
                assaulted(old(self)@.minions, attacks@, targets) == Some(final(self)@.minions),
            final(self)@.armies == old(self)@.armies,
    {
        let ghost targets: Seq<int> = Seq::empty();
        let mut k: usize = 0;
        while k < attacks.len()
            invariant
                k <= attacks@.len(),
                targets.len() == k,
                assaulted(old(self)@.minions, attacks@.take(k as int), targets) == Some(
                    self@.minions,
                ),
                self@.armies == old(self)@.armies,
            decreases attacks@.len() - k,
        {
            let ghost pick: int = 0;
            if self.minions.len() > 0 {
                let target = sample_below(rng, self.minions.len());
                wound(&mut self.minions, target, attacks[k]);
                proof {
                    pick = target as int;
                }
            }
            proof {
                let longer = targets.push(pick);
                lemma_assaulted_read_prefix(
                    old(self)@.minions,
                    attacks@.take(k as int),
                    targets,
                    longer,
                );
                assert(attacks@.take(k + 1).drop_last() == attacks@.take(k as int));
                targets = longer;
            }
            k = k + 1;
        }
        proof {
            assert(attacks@.take(k as int) == attacks@);
            assert(assaulted(old(self)@.minions, attacks@, targets) == Some(self@.minions));
        }
    }

    /// One tick of combat.
    ///
    /// The result is what the model gives for some choice of picks, each
    /// within the pool it was drawn from.
    pub fn fight_tick(&mut self, rng: &mut StdRng) -> (outcome: Outcome)
        requires
            old(self)@.roomy(),
        ensures
            exists|picks: Picks| tick(old(self)@, picks) == Some((final(self)@, outcome)),
    {
        let ghost start = self@;
        if self.armies.len() == 0 {
            proof {
                let picks = Picks {
                    aims: Seq::empty(),
                    heals: Seq::empty(),
                    reductions: Seq::empty(),
                    attacks: Seq::empty(),
                };
                assert(tick(start, picks) == Some((self@, Outcome::RoundWon)));
            }
            return Outcome::RoundWon;
        }
        let attacks = march(&mut self.armies);
        let ghost lined_up = self@;
        let mut pending = Pending::new();
        self.ability_phase(rng, &mut pending);
        let ghost aims = choose|aims: Seq<int>|
            ability_phase(lined_up, Queues::empty(), aims) == Some((self@, pending@));
        let ghost acted = self@;
        if self.armies.len() == 0 {
            proof {
                let picks = Picks {
                    aims,
                    heals: Seq::empty(),
                    reductions: Seq::empty(),
                    attacks: Seq::empty(),
                };
                assert(lined_up == Field { armies: marched(start.armies), ..start });
                assert(tick(start, picks) == Some((self@, Outcome::RoundWon)));
            }
            return Outcome::RoundWon;
        }
        self.settle(rng, &pending);
        let ghost (heals, reductions) = choose|heals: Seq<int>, reductions: Seq<int>|
            settled(acted.minions, pending@, heals, reductions) == Some(self@.minions);
        let ghost settled_minions = self@.minions;
        self.assault(rng, &attacks);
        let ghost targets = choose|targets: Seq<int>|
            assaulted(settled_minions, attacks@, targets) == Some(self@.minions);
        let outcome = if self.minions.len() == 0 {
            Outcome::RunDefeated
        } else {
            Outcome::Ongoing
        };
        proof {
            let picks = Picks { aims, heals, reductions, attacks: targets };
            assert(lined_up == Field { armies: marched(start.armies), ..start });
            assert(attacks@ == volley(start.armies));
            assert(tick(start, picks) == Some((self@, outcome)));
        }
        outcome
    }
}

} // verus!
