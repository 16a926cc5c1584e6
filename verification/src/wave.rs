//! The enemy wave generator.
//!
//! A wave is sized by the difficulty of the round. On every fifth
//! difficulty the roster's penalty tags are added in, scaled by the bounty
//! that each unit has earned.

use crate::battle::{Battle, Field};
use crate::catalog::Penalty;
use crate::combat::Army;
use crate::party::{lineup, Party, RosterEntry};
use vstd::prelude::*;

verus! {

/// The four numbers that size a wave.
#[derive(Clone, Copy, Debug, PartialEq, Eq, Structural)]
pub struct Wave {
    pub health: usize,
    pub amount: usize,
    pub countdown: usize,
    pub damage: usize,
}

/// The four numbers that size a wave, as mathematical integers.
pub struct Stats {
    pub health: int,
    pub amount: int,
    pub countdown: int,
    pub damage: int,
}

impl View for Wave {
    type V = Stats;

    open spec fn view(&self) -> Stats {
        Stats {
            health: self.health as int,
            amount: self.amount as int,
            countdown: self.countdown as int,
            damage: self.damage as int,
        }
    }
}

impl Stats {
    /// Nothing.
    pub open spec fn zero() -> Stats {
        Stats { health: 0, amount: 0, countdown: 0, damage: 0 }
    }

    /// The sum, number by number.
    pub open spec fn plus(self, other: Stats) -> Stats {
        Stats {
            health: self.health + other.health,
            amount: self.amount + other.amount,
            countdown: self.countdown + other.countdown,
            damage: self.damage + other.damage,
        }
    }

    /// No number is larger in `self` than in `other`, and none is negative.
    pub open spec fn within(self, other: Stats) -> bool {
        &&& 0 <= self.health <= other.health
        &&& 0 <= self.amount <= other.amount
        &&& 0 <= self.countdown <= other.countdown
        &&& 0 <= self.damage <= other.damage
    }

    /// Every number is one that the machine can hold.
    pub open spec fn representable(self) -> bool {
        &&& 0 <= self.health <= usize::MAX
        &&& 0 <= self.amount <= usize::MAX
        &&& 0 <= self.countdown <= usize::MAX
        &&& 0 <= self.damage <= usize::MAX
    }

    /// The wave can be spawned within the numbers of the machine: besides
    /// the four numbers themselves, the health and the damage of an army
    /// and the number of armies.
    pub open spec fn fits(self) -> bool {
        &&& self.representable()
        &&& self.health + 10 <= usize::MAX
        &&& self.damage + 1 <= usize::MAX
        &&& self.amount + 1 <= usize::MAX
    }
}

/// The wave of a difficulty before any penalty.
pub open spec fn baseline(difficulty: int) -> Stats {
    Stats {
        health: difficulty,
        amount: difficulty / 5,
        countdown: difficulty / 5,
        damage: difficulty / 2,
    }
}

/// What one penalty tag adds for a unit with the given bounty.
pub open spec fn tag_bonus(tag: Penalty, bounty: int) -> Stats {
    match tag {
        Penalty::IncreasedHealth => Stats { health: bounty * 2, ..Stats::zero() },
        Penalty::IncreasedDamage => Stats { damage: bounty, ..Stats::zero() },
        Penalty::IncreasedAmount => Stats { amount: bounty / 2, ..Stats::zero() },
        Penalty::ReducedCountdown => Stats { countdown: bounty / 2, ..Stats::zero() },
    }
}

/// What the tags of one unit add.
pub open spec fn tags_bonus(tags: Seq<Penalty>, bounty: int) -> Stats
    decreases tags.len(),
{
    if tags.len() == 0 {
        Stats::zero()
    } else {
        tags_bonus(tags.drop_last(), bounty).plus(tag_bonus(tags.last(), bounty))
    }
}

/// What the whole roster adds.
pub open spec fn roster_bonus(roster: Seq<RosterEntry>) -> Stats
    decreases roster.len(),
{
    if roster.len() == 0 {
        Stats::zero()
    } else {
        roster_bonus(roster.drop_last()).plus(
            tags_bonus(roster.last().class.penalties(), roster.last().bounty as int),
        )
    }
}

/// The wave that meets a roster at a difficulty: the baseline, and on every
/// fifth difficulty the roster's penalties on top.
pub open spec fn wave(difficulty: int, roster: Seq<RosterEntry>) -> Stats {
    if difficulty % 5 == 0 {
        baseline(difficulty).plus(roster_bonus(roster))
    } else {
        baseline(difficulty)
    }
}

/// An army of a wave with the given numbers.
pub open spec fn army_of(health: int, damage: int, countdown: int) -> Army {
    let max_countdown = if 5 - countdown >= 1 {
        5 - countdown
    } else {
        1
    };
    Army {
        health: (10 + health) as usize,
        max_health: (10 + health) as usize,
        damage: (1 + damage) as usize,
        countdown: max_countdown as usize,
        max_countdown: max_countdown as usize,
    }
}

/// The armies of a wave: one more than its amount, all alike.
pub open spec fn armies_of(stats: Stats) -> Seq<Army> {
    Seq::new(
        (stats.amount + 1) as nat,
        |i: int| army_of(stats.health, stats.damage, stats.countdown),
    )
}

/// The tags of a unit add nothing negative, and no prefix of them adds
/// more than all of them.
pub proof fn lemma_tags_bonus_prefix(tags: Seq<Penalty>, bounty: int, count: int)
    requires
        0 <= bounty,
        0 <= count <= tags.len(),
    ensures
        tags_bonus(tags.take(count), bounty).within(tags_bonus(tags, bounty)),
    decreases tags.len(),
{
    if count == tags.len() {
        assert(tags.take(count) == tags);
        if tags.len() > 0 {
            lemma_tags_bonus_prefix(tags.drop_last(), bounty, count - 1);
            assert(tags.drop_last().take(count - 1) == tags.drop_last());
        }
    } else {
        lemma_tags_bonus_prefix(tags.drop_last(), bounty, count);
        assert(tags.drop_last().take(count) == tags.take(count));
    }
}

/// The roster adds nothing negative, and no prefix of it adds more than
/// all of it.
pub proof fn lemma_roster_bonus_prefix(roster: Seq<RosterEntry>, count: int)
    requires
        0 <= count <= roster.len(),
    ensures
        roster_bonus(roster.take(count)).within(roster_bonus(roster)),
    decreases roster.len(),
{
    if roster.len() > 0 {
        let tags = roster.last().class.penalties();
        lemma_tags_bonus_prefix(tags, roster.last().bounty as int, tags.len() as int);
        assert(tags.take(tags.len() as int) == tags);
    }
    if count == roster.len() {
        assert(roster.take(count) == roster);
        if roster.len() > 0 {
            lemma_roster_bonus_prefix(roster.drop_last(), count - 1);
            assert(roster.drop_last().take(count - 1) == roster.drop_last());
        }
    } else {
        lemma_roster_bonus_prefix(roster.drop_last(), count);
        assert(roster.drop_last().take(count) == roster.take(count));
    }
}

/// Computes the wave that meets the roster at a difficulty, or nothing if
/// one of its numbers is too large for the machine.
pub fn wave_params(difficulty: usize, party: &Party) -> (result: Option<Wave>)
    ensures
        match result {
            Some(w) => w@ == wave(difficulty as int, party@),
            None => !wave(difficulty as int, party@).representable(),
        },
{
    let mut w = Wave {
        health: difficulty,
        amount: difficulty / 5,
        countdown: difficulty / 5,
        damage: difficulty / 2,
    };
    if difficulty % 5 != 0 {
        return Some(w);
    }
    let ghost base = baseline(difficulty as int);
    let mut i: usize = 0;
    while i < party.entries.len()
        invariant
            i <= party@.len(),
            difficulty % 5 == 0,
            base == baseline(difficulty as int),
            w@ == base.plus(roster_bonus(party@.take(i as int))),
        decreases party@.len() - i,
    {
        let bounty = party.entries[i].bounty;
        let minion_type = party.entries[i].class.get_type();
        let ghost tags = minion_type.penalties@;
        let ghost so_far = roster_bonus(party@.take(i as int));
        proof {
            assert(party@.take(i + 1).drop_last() == party@.take(i as int));
            assert(tags == party@[i as int].class.penalties());
            lemma_roster_bonus_prefix(party@, i + 1);
        }
        let mut j: usize = 0;
        while j < minion_type.penalties.len()
            invariant
                j <= tags.len(),
                tags == minion_type.penalties@,
                0 <= bounty,
                w@ == base.plus(so_far).plus(tags_bonus(tags.take(j as int), bounty as int)),
                base == baseline(difficulty as int),
                difficulty % 5 == 0,
                base.plus(so_far).plus(tags_bonus(tags, bounty as int)).within(
                    wave(difficulty as int, party@),
                ),
            decreases tags.len() - j,
        {
            proof {
                assert(tags.take(j + 1).drop_last() == tags.take(j as int));
                lemma_tags_bonus_prefix(tags, bounty as int, j + 1);
            }
            match minion_type.penalties[j] {
                Penalty::IncreasedAmount => {
                    match w.amount.checked_add(bounty / 2) {
                        Some(sum) => {
                            w.amount = sum;
                        },
                        None => {
                            return None;
                        },
                    }
                },
                Penalty::IncreasedDamage => {
                    match w.damage.checked_add(bounty) {
                        Some(sum) => {
                            w.damage = sum;
                        },
                        None => {
                            return None;
                        },
                    }
                },
                Penalty::IncreasedHealth => {
                    match bounty.checked_mul(2) {
                        Some(twice) => {
                            match w.health.checked_add(twice) {
                                Some(sum) => {
                                    w.health = sum;
                                },
                                None => {
                                    return None;
                                },
                            }
                        },
                        None => {
                            return None;
                        },
                    }
                },
                Penalty::ReducedCountdown => {
                    match w.countdown.checked_add(bounty / 2) {
                        Some(sum) => {
                            w.countdown = sum;
                        },
                        None => {
                            return None;
                        },
                    }
                },
            }
            j = j + 1;
        }
        proof {
            assert(tags.take(j as int) == tags);
        }
        i = i + 1;
    }
    proof {
        assert(party@.take(i as int) == party@);
    }
    Some(w)
}

/// Puts one army of a wave with the given numbers at the end of the line.
pub fn spawn_army(armies: &mut Vec<Army>, health: usize, damage: usize, countdown: usize)
    requires
        health + 10 <= usize::MAX,
        damage + 1 <= usize::MAX,
    ensures
        final(armies)@ == old(armies)@.push(
            army_of(health as int, damage as int, countdown as int),
        ),
        final(armies)@.last().health == final(armies)@.last().max_health == 10 + health,
        final(armies)@.last().damage == 1 + damage,
        final(armies)@.last().countdown == final(armies)@.last().max_countdown,
        1 <= final(armies)@.last().max_countdown <= 5,
{
    let max_countdown = if countdown >= 4 {
        1
    } else {
        5 - countdown
    };
    armies.push(
        Army {
            health: 10 + health,
            max_health: 10 + health,
            damage: 1 + damage,
            countdown: max_countdown,
            max_countdown,
        },
    );
}

/// Lines up both sides for a fight: a fresh minion for each roster entry
/// and the wave that meets the roster at this difficulty. Gives nothing if
/// the wave is too large for the machine.
pub fn fight_start_pre(difficulty: usize, party: &Party) -> (result: Option<Battle>)
    ensures
        match result {
            Some(battle) => wave(difficulty as int, party@).fits() && battle@ == (Field {
                minions: lineup(party@),
                armies: armies_of(wave(difficulty as int, party@)),
            }),
            None => !wave(difficulty as int, party@).fits(),
        },
{
    let w = match wave_params(difficulty, party) {
        Some(w) => w,
        None => {
            return None;
        },
    };
    if w.health > usize::MAX - 10 || w.damage > usize::MAX - 1 || w.amount > usize::MAX - 1 {
        return None;
    }
    let minions = party.spawn_minions();
    let mut armies: Vec<Army> = Vec::new();
    let mut i: usize = 0;
    while i < w.amount + 1
        invariant
            i <= w.amount + 1 <= usize::MAX,
            w.health + 10 <= usize::MAX,
            w.damage + 1 <= usize::MAX,
            armies@.len() == i,
            forall|j: int|
                0 <= j < i ==> armies@[j] == army_of(
                    w.health as int,
                    w.damage as int,
                    w.countdown as int,
                ),
        decreases w.amount + 1 - i,
    {
        spawn_army(&mut armies, w.health, w.damage, w.countdown);
        i = i + 1;
    }
    Some(Battle { minions, armies })
}

} // verus!
