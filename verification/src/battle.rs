//! The model of one combat tick.
//!
//! A tick is a function of the field and of the picks made along the way:
//! which army each acting minion aims at, which minion each queued heal or
//! countdown cut lands on, and which minion each army attack hits. The
//! model returns nothing (`None`) for picks that point outside the pool
//! they were drawn from.

use crate::catalog::{Ability, Minion};
use crate::combat::{
    all_hastened, all_healed, all_overhealed, blasted, hastened, healed, marched, stalled,
    struck, volley, wounded, Army,
};
use vstd::prelude::*;

verus! {

/// The two lines that face each other.
pub struct Battle {
    pub minions: Vec<Minion>,
    pub armies: Vec<Army>,
}

/// The mathematical content of a [`Battle`].
#[verifier::ext_equal]
pub struct Field {
    pub minions: Seq<Minion>,
    pub armies: Seq<Army>,
}

impl View for Battle {
    type V = Field;

    open spec fn view(&self) -> Field {
        Field { minions: self.minions@, armies: self.armies@ }
    }
}

/// Effects on minions that wait for the end of the ability phase.
pub struct Pending {
    pub heals: Vec<usize>,
    pub aoe_heals: Vec<usize>,
    pub aoe_overheals: Vec<usize>,
    pub reductions: Vec<usize>,
    pub aoe_reductions: Vec<usize>,
}

/// The mathematical content of a [`Pending`].
#[verifier::ext_equal]
pub struct Queues {
    pub heals: Seq<usize>,
    pub aoe_heals: Seq<usize>,
    pub aoe_overheals: Seq<usize>,
    pub reductions: Seq<usize>,
    pub aoe_reductions: Seq<usize>,
}

impl View for Pending {
    type V = Queues;

    open spec fn view(&self) -> Queues {
        Queues {
            heals: self.heals@,
            aoe_heals: self.aoe_heals@,
            aoe_overheals: self.aoe_overheals@,
            reductions: self.reductions@,
            aoe_reductions: self.aoe_reductions@,
        }
    }
}

impl Queues {
    /// No effect waits.
    pub open spec fn empty() -> Queues {
        Queues {
            heals: Seq::empty(),
            aoe_heals: Seq::empty(),
            aoe_overheals: Seq::empty(),
            reductions: Seq::empty(),
            aoe_reductions: Seq::empty(),
        }
    }
}

/// How a tick ended.
#[derive(Clone, Copy, Debug, PartialEq, Eq, Structural)]
pub enum Outcome {
    /// Both lines still stand.
    Ongoing,
    /// No army is left.
    RoundWon,
    /// No minion is left while armies remain.
    RunDefeated,
}

/// The random picks of one tick.
pub struct Picks {
    /// For each minion that was on the field when the ability phase began,
    /// the army it aims at. Read only where the minion acts and its ability
    /// strikes a single army.
    pub aims: Seq<int>,
    /// For each queued single-target heal, the minion it lands on.
    pub heals: Seq<int>,
    /// For each queued single-target countdown cut, the minion it lands on.
    pub reductions: Seq<int>,
    /// For each army attack, the minion it hits.
    pub attacks: Seq<int>,
}

impl Ability {
    /// Whether the ability strikes one army, which has to be picked.
    pub open spec fn aimed(self) -> bool {
        self is SingleDamage || self is Stall || self is InstantKill
    }
}

impl Field {
    /// A field with nobody on it.
    pub open spec fn empty() -> Field {
        Field { minions: Seq::empty(), armies: Seq::empty() }
    }

    /// Every number on the field can still grow by what the turns of
    /// `turns_left` minions, out of `minions` in all, may add to it. No
    /// class stalls an army by more than three ticks, so a countdown needs
    /// room for three ticks a turn. No class overheals by more than one
    /// point, so a health needs room for one point a minion. No class
    /// enters the field with more than twenty health, so a summoned minion
    /// has that room if twenty and one point a minion fit the machine.
    pub open spec fn spare(self, minions: int, turns_left: int) -> bool {
        &&& minions + 20 <= usize::MAX
        &&& forall|j: int|
            0 <= j < self.minions.len() ==> {
                &&& (#[trigger] self.minions[j]).health + minions <= usize::MAX
                &&& self.minions[j].max_health + minions <= usize::MAX
            }
        &&& forall|j: int|
            0 <= j < self.armies.len() ==> {
                &&& (#[trigger] self.armies[j]).countdown + 3 * turns_left <= usize::MAX
                &&& self.armies[j].max_countdown + 3 * turns_left <= usize::MAX
            }
    }

    /// The field has room for one tick: no number on it can overflow.
    pub open spec fn roomy(self) -> bool {
        self.spare(self.minions.len() as int, self.minions.len() as int)
    }
}

/// Every minion's countdown is at most its maximum.
pub open spec fn minions_in_range(minions: Seq<Minion>) -> bool {
    forall|j: int|
        0 <= j < minions.len() ==> (#[trigger] minions[j]).countdown <= minions[j].max_countdown
}

/// Every army's countdown is at most its maximum.
pub open spec fn armies_in_range(armies: Seq<Army>) -> bool {
    forall|j: int|
        0 <= j < armies.len() ==> (#[trigger] armies[j]).countdown <= armies[j].max_countdown
}

/// Every army has at least one tick to go before its attack, and at least
/// one tick between two attacks.
pub open spec fn armies_wound_up(armies: Seq<Army>) -> bool {
    forall|j: int|
        0 <= j < armies.len() ==> 1 <= (#[trigger] armies[j]).countdown && 1
            <= armies[j].max_countdown
}

/// No minion has an ability that stalls armies.
pub open spec fn no_stall(minions: Seq<Minion>) -> bool {
    forall|j: int|
        0 <= j < minions.len() ==> !((#[trigger] minions[j]).class.ability() is Stall)
}

/// The sum of the queued amounts.
pub open spec fn total(amounts: Seq<usize>) -> int
    decreases amounts.len(),
{
    if amounts.len() == 0 {
        0
    } else {
        total(amounts.drop_last()) + amounts.last()
    }
}

/// The field and the queues after an ability took effect.
pub open spec fn resolved(f: Field, q: Queues, ability: Ability, aim: int) -> (Field, Queues) {
    match ability {
        Ability::SingleDamage(damage) => (Field { armies: struck(f.armies, aim, damage), ..f }, q),
        Ability::AoeDamage(damage) => (Field { armies: blasted(f.armies, damage), ..f }, q),
        Ability::SingleHeal(amount) => (f, Queues { heals: q.heals.push(amount), ..q }),
        Ability::AoeHeal(amount) => (f, Queues { aoe_heals: q.aoe_heals.push(amount), ..q }),
        Ability::AoeOverheal(amount) => (
            f,
            Queues { aoe_overheals: q.aoe_overheals.push(amount), ..q },
        ),
        Ability::SingleReduce(amount) => (f, Queues { reductions: q.reductions.push(amount), ..q }),
        Ability::AoeReduce(amount) => (
            f,
            Queues { aoe_reductions: q.aoe_reductions.push(amount), ..q },
        ),
        Ability::Summon(class) => (Field { minions: f.minions.push(class.fresh()), ..f }, q),
        Ability::Stall(ticks) => (Field { armies: stalled(f.armies, aim, ticks), ..f }, q),
        Ability::InstantKill => (Field { armies: f.armies.remove(aim), ..f }, q),
    }
}

/// The turn of the minion at `index` in the ability phase.
///
/// Once no army is left nothing further happens. A minion that is not
/// ready waits one tick. A ready minion winds up again and its ability
/// takes effect, on the army at `aim` where it strikes a single army.
pub open spec fn turn(f: Field, q: Queues, index: int, aim: int) -> Option<(Field, Queues)> {
    let m = f.minions[index];
    if f.armies.len() == 0 {
        Some((f, q))
    } else if !m.ready() {
        Some((Field { minions: f.minions.update(index, m.waited()), ..f }, q))
    } else if m.class.ability().aimed() && !(0 <= aim < f.armies.len()) {
        None
    } else {
        Some(
            resolved(
                Field { minions: f.minions.update(index, m.rearmed()), ..f },
                q,
                m.class.ability(),
                aim,
            ),
        )
    }
}

/// Whether the turn of the minion at `index` stays within the numbers of
/// the machine: a stall must not push a countdown past the largest one.
pub open spec fn turn_fits(f: Field, index: int, aim: int) -> bool {
    f.armies.len() > 0 && f.minions[index].ready() ==> match f.minions[index].class.ability() {
        Ability::Stall(ticks) => f.armies[aim].countdown + ticks <= usize::MAX,
        _ => true,
    }
}

/// The turns of the first `count` minions, in line order.
pub open spec fn turns(f: Field, q: Queues, aims: Seq<int>, count: nat) -> Option<(Field, Queues)>
    decreases count,
{
    if count == 0 {
        Some((f, q))
    } else {
        match turns(f, q, aims, (count - 1) as nat) {
            None => None,
            Some((f1, q1)) => turn(f1, q1, count - 1, aims[count - 1]),
        }
    }
}

/// The ability phase: the turn of every minion that is on the field when
/// the phase begins. Minions summoned during the phase do not act in it.
pub open spec fn ability_phase(f: Field, q: Queues, aims: Seq<int>) -> Option<(Field, Queues)> {
    turns(f, q, aims, f.minions.len())
}

/// The minions after the queued single-target heals, each on the minion
/// picked for it. With no minion on the field the heals are dropped.
pub open spec fn mended(minions: Seq<Minion>, amounts: Seq<usize>, targets: Seq<int>) -> Option<
    Seq<Minion>,
>
    decreases amounts.len(),
{
    if amounts.len() == 0 || minions.len() == 0 {
        Some(minions)
    } else {
        let target = targets[amounts.len() - 1];
        match mended(minions, amounts.drop_last(), targets) {
            None => None,
            Some(before) => if 0 <= target < before.len() {
                Some(healed(before, target, amounts.last()))
            } else {
                None
            },
        }
    }
}

/// The minions after the queued heals for all.
pub open spec fn all_mended(minions: Seq<Minion>, amounts: Seq<usize>) -> Seq<Minion>
    decreases amounts.len(),
{
    if amounts.len() == 0 {
        minions
    } else {
        all_healed(all_mended(minions, amounts.drop_last()), amounts.last())
    }
}

/// The minions after the queued overheals for all.
pub open spec fn all_bolstered(minions: Seq<Minion>, amounts: Seq<usize>) -> Seq<Minion>
    decreases amounts.len(),
{
    if amounts.len() == 0 {
        minions
    } else {
        all_overhealed(all_bolstered(minions, amounts.drop_last()), amounts.last())
    }
}

/// The minions after the queued single-target countdown cuts, each on the
/// minion picked for it. With no minion on the field the cuts are dropped.
pub open spec fn quickened(minions: Seq<Minion>, amounts: Seq<usize>, targets: Seq<int>) -> Option<
    Seq<Minion>,
>
    decreases amounts.len(),
{
    if amounts.len() == 0 || minions.len() == 0 {
        Some(minions)
    } else {
        let target = targets[amounts.len() - 1];
        match quickened(minions, amounts.drop_last(), targets) {
            None => None,
            Some(before) => if 0 <= target < before.len() {
                Some(hastened(before, target, amounts.last()))
            } else {
                None
            },
        }
    }
}

/// The minions after the queued countdown cuts for all.
pub open spec fn all_quickened(minions: Seq<Minion>, amounts: Seq<usize>) -> Seq<Minion>
    decreases amounts.len(),
{
    if amounts.len() == 0 {
        minions
    } else {
        all_hastened(all_quickened(minions, amounts.drop_last()), amounts.last())
    }
}

/// The minions after every queued effect: single heals, heals for all,
/// overheals for all, single countdown cuts, countdown cuts for all, in
/// that order.
pub open spec fn settled(
    minions: Seq<Minion>,
    q: Queues,
    heal_targets: Seq<int>,
    reduction_targets: Seq<int>,
) -> Option<Seq<Minion>> {
    match mended(minions, q.heals, heal_targets) {
        None => None,
        Some(m1) => match quickened(
            all_bolstered(all_mended(m1, q.aoe_heals), q.aoe_overheals),
            q.reductions,
            reduction_targets,
        ) {
            None => None,
            Some(m2) => Some(all_quickened(m2, q.aoe_reductions)),
        },
    }
}

/// No healing raised a minion past its maximum: each minion of `after`
/// is the minion of `before` at the same place, with the same maximum and
/// with no more health than the larger of its old health and its maximum.
pub open spec fn capped(before: Seq<Minion>, after: Seq<Minion>) -> bool {
    &&& after.len() == before.len()
    &&& forall|j: int|
        0 <= j < before.len() ==> {
            &&& (#[trigger] after[j]).max_health == before[j].max_health
            &&& after[j].health <= before[j].health || after[j].health <= before[j].max_health
        }
}

/// Whether the queued effects can be applied within the numbers of the
/// machine: the overheals must not push a health past the largest one.
pub open spec fn settle_fits(minions: Seq<Minion>, q: Queues) -> bool {
    forall|j: int|
        0 <= j < minions.len() ==> {
            &&& (#[trigger] minions[j]).health + total(q.aoe_overheals) <= usize::MAX
            &&& minions[j].max_health + total(q.aoe_overheals) <= usize::MAX
        }
}

/// The minions after the army attacks, each on the minion picked for it.
/// Once no minion is left the remaining attacks are dropped.
pub open spec fn assaulted(minions: Seq<Minion>, attacks: Seq<usize>, targets: Seq<int>) -> Option<
    Seq<Minion>,
>
    decreases attacks.len(),
{
    if attacks.len() == 0 {
        Some(minions)
    } else {
        let target = targets[attacks.len() - 1];
        match assaulted(minions, attacks.drop_last(), targets) {
            None => None,
            Some(before) => if before.len() == 0 {
                Some(before)
            } else if 0 <= target < before.len() {
                Some(wounded(before, target, attacks.last()))
            } else {
                None
            },
        }
    }
}

/// One tick of combat.
///
/// With no army on the field the round is already won. Otherwise the
/// armies count down and queue their attacks, then the minions take their
/// turns. If that leaves no army, the round is won and the tick ends: the
/// queued effects and attacks are dropped. Otherwise the queued effects on
/// minions are applied, then the army attacks; the run is lost if no
/// minion is left after them.
pub open spec fn tick(f: Field, picks: Picks) -> Option<(Field, Outcome)> {
    if f.armies.len() == 0 {
        Some((f, Outcome::RoundWon))
    } else {
        let lined_up = Field { armies: marched(f.armies), ..f };
        match ability_phase(lined_up, Queues::empty(), picks.aims) {
            None => None,
            Some((f1, q)) => if f1.armies.len() == 0 {
                Some((f1, Outcome::RoundWon))
            } else {
                match settled(f1.minions, q, picks.heals, picks.reductions) {
                    None => None,
                    Some(m2) => match assaulted(m2, volley(f.armies), picks.attacks) {
                        None => None,
                        Some(m3) => Some(
                            (
                                Field { minions: m3, ..f1 },
                                if m3.len() == 0 {
                                    Outcome::RunDefeated
                                } else {
                                    Outcome::Ongoing
                                },
                            ),
                        ),
                    },
                }
            },
        }
    }
}

} // verus!
