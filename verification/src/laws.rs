//! What holds of the game whatever the picks: laws of healing, of
//! countdowns and of wave scaling, each proved from the models.

use crate::battle::{
    ability_phase, all_bolstered, all_mended, all_quickened, armies_in_range, armies_wound_up,
    assaulted, capped, mended, minions_in_range, no_stall, quickened, settled, tick, turn,
    turn_fits, turns, Field, Outcome, Picks, Queues,
};
use crate::bounds::{lemma_turn_spare, lemma_turns_spare};
use crate::catalog::{Class, Minion, Penalty};
use crate::combat::{blasted, marched, volley, Army};
use crate::party::{lineup, RosterEntry};
use crate::wave::{armies_of, army_of, baseline, roster_bonus, tags_bonus, wave, Stats};
use vstd::prelude::*;

verus! {

/// A heal never takes health away, and never raises it past the maximum:
/// the health after it is the health before it or lies within the maximum.
pub proof fn lemma_heal_respects_maximum(m: Minion, amount: usize)
    ensures
        m.healed(amount).health >= m.health,
        m.healed(amount).health == m.health || m.healed(amount).health <= m.max_health,
        m.health <= m.max_health ==> m.healed(amount).health <= m.max_health,
        m.healed(amount).max_health == m.max_health,
{
}

/// An overheal can raise health past the maximum: on a minion at its
/// maximum, any overheal that fits the machine does.
pub proof fn lemma_overheal_passes_maximum(m: Minion, amount: usize)
    requires
        m.health == m.max_health,
        amount >= 1,
        m.health + amount <= usize::MAX,
    ensures
        m.overhealed(amount).health == m.health + amount,
        m.overhealed(amount).health > m.max_health,
{
}

/// A batch of single-target heals never raises a minion past its maximum,
/// whoever the heals land on.
pub proof fn lemma_mended_capped(
    minions: Seq<Minion>,
    amounts: Seq<usize>,
    targets: Seq<int>,
    after: Seq<Minion>,
)
    requires
        mended(minions, amounts, targets) == Some(after),
    ensures
        capped(minions, after),
    decreases amounts.len(),
{
    if amounts.len() > 0 && minions.len() > 0 {
        match mended(minions, amounts.drop_last(), targets) {
            Some(before) => {
                lemma_mended_capped(minions, amounts.drop_last(), targets, before);
            },
            None => {},
        }
    }
}

/// A batch of heals for all never raises a minion past its maximum.
pub proof fn lemma_all_mended_capped(minions: Seq<Minion>, amounts: Seq<usize>)
    ensures
        capped(minions, all_mended(minions, amounts)),
    decreases amounts.len(),
{
    if amounts.len() > 0 {
        lemma_all_mended_capped(minions, amounts.drop_last());
    }
}

/// Every class enters the field with its countdown within its maximum.
pub proof fn lemma_fresh_in_range(class: Class)
    ensures
        class.start_countdown() <= class.max_countdown(),
        class.fresh().countdown <= class.fresh().max_countdown,
{
}

/// A roster lines up with every countdown within its maximum.
pub proof fn lemma_lineup_in_range(roster: Seq<RosterEntry>)
    ensures
        lineup(roster).len() == roster.len(),
        minions_in_range(lineup(roster)),
{
    assert forall|j: int| 0 <= j < lineup(roster).len() implies (#[trigger] lineup(
        roster,
    )[j]).countdown <= lineup(roster)[j].max_countdown by {
        lemma_fresh_in_range(roster[j].class);
    }
}

/// An army of a wave that fits the machine enters wound up to its maximum
/// countdown, which lies between one and five ticks, with full health of
/// ten or more and a damage of one or more.
pub proof fn lemma_army_of_bounds(health: int, damage: int, countdown: int)
    requires
        0 <= health,
        0 <= damage,
        0 <= countdown,
        health + 10 <= usize::MAX,
        damage + 1 <= usize::MAX,
    ensures
        1 <= army_of(health, damage, countdown).max_countdown <= 5,
        army_of(health, damage, countdown).countdown == army_of(
            health,
            damage,
            countdown,
        ).max_countdown,
        army_of(health, damage, countdown).max_countdown == if countdown >= 4 {
            1
        } else {
            5 - countdown
        },
        army_of(health, damage, countdown).health == army_of(health, damage, countdown).max_health,
        army_of(health, damage, countdown).health == 10 + health,
        army_of(health, damage, countdown).damage == 1 + damage,
{
}

/// The armies of a wave that fits the machine enter wound up and within
/// their maximum countdown.
pub proof fn lemma_armies_of_in_range(stats: Stats)
    requires
        stats.fits(),
    ensures
        armies_wound_up(armies_of(stats)),
        armies_in_range(armies_of(stats)),
        armies_of(stats).len() >= 1,
{
    lemma_army_of_bounds(stats.health, stats.damage, stats.countdown);
}

/// A blast leaves every countdown as it was.
proof fn lemma_blasted_wound_up(armies: Seq<Army>, damage: usize)
    requires
        armies_wound_up(armies),
    ensures
        armies_wound_up(blasted(armies, damage)),
    decreases armies.len(),
{
    if armies.len() > 0 {
        lemma_blasted_wound_up(armies.drop_last(), damage);
    }
}

/// One turn of the ability phase leaves every army with at least one tick
/// to go, where it stays within the numbers of the machine.
proof fn lemma_turn_wound_up(f: Field, q: Queues, index: int, aim: int, f2: Field, q2: Queues)
    requires
        0 <= index < f.minions.len(),
        turn(f, q, index, aim) == Some((f2, q2)),
        turn_fits(f, index, aim),
        armies_wound_up(f.armies),
    ensures
        armies_wound_up(f2.armies),
{
    if f.armies.len() > 0 && f.minions[index].ready() {
        lemma_blasted_wound_up(f.armies, 1);
        lemma_blasted_wound_up(f.armies, 2);
    }
}

/// The turns of the ability phase leave every army with at least one tick
/// to go, on a field with room for them.
proof fn lemma_turns_wound_up(
    f: Field,
    q: Queues,
    aims: Seq<int>,
    count: nat,
    n: int,
    f2: Field,
    q2: Queues,
)
    requires
        f.spare(n, n),
        count <= n <= f.minions.len(),
        turns(f, q, aims, count) == Some((f2, q2)),
        armies_wound_up(f.armies),
    ensures
        armies_wound_up(f2.armies),
    decreases count,
{
    if count > 0 {
        match turns(f, q, aims, (count - 1) as nat) {
            Some((f1, q1)) => {
                lemma_turns_wound_up(f, q, aims, (count - 1) as nat, n, f1, q1);
                lemma_turns_spare(f, q, aims, (count - 1) as nat, n, f1, q1);
                lemma_turn_spare(f1, q1, count - 1, aims[count - 1], n, n - (count - 1), f2, q2);
                lemma_turn_wound_up(f1, q1, count - 1, aims[count - 1], f2, q2);
            },
            None => {},
        }
    }
}

/// A tick leaves every army with at least one tick to go before its next
/// attack, whatever the picks, stalls included, on a field with room for
/// the tick.
pub proof fn lemma_tick_keeps_armies_wound_up(
    f: Field,
    picks: Picks,
    after: Field,
    outcome: Outcome,
)
    requires
        tick(f, picks) == Some((after, outcome)),
        f.roomy(),
        armies_wound_up(f.armies),
    ensures
        armies_wound_up(after.armies),
{
    if f.armies.len() > 0 {
        let lined_up = Field { armies: marched(f.armies), ..f };
        assert(armies_wound_up(lined_up.armies));
        assert(lined_up.roomy());
        match ability_phase(lined_up, Queues::empty(), picks.aims) {
            Some((f1, q)) => {
                lemma_turns_wound_up(
                    lined_up,
                    Queues::empty(),
                    picks.aims,
                    lined_up.minions.len(),
                    lined_up.minions.len() as int,
                    f1,
                    q,
                );
            },
            None => {},
        }
    }
}

/// A blast leaves every countdown as it was.
proof fn lemma_blasted_in_range(armies: Seq<Army>, damage: usize)
    requires
        armies_in_range(armies),
    ensures
        armies_in_range(blasted(armies, damage)),
    decreases armies.len(),
{
    if armies.len() > 0 {
        lemma_blasted_in_range(armies.drop_last(), damage);
    }
}

/// One turn of the ability phase keeps every countdown within its
/// maximum, as long as no stall is cast.
proof fn lemma_turn_in_range(f: Field, q: Queues, index: int, aim: int, f2: Field, q2: Queues)
    requires
        0 <= index < f.minions.len(),
        turn(f, q, index, aim) == Some((f2, q2)),
        minions_in_range(f.minions),
    ensures
        minions_in_range(f2.minions),
        f2.minions.len() >= f.minions.len(),
        no_stall(f.minions) ==> no_stall(f2.minions),
        no_stall(f.minions) && armies_in_range(f.armies) ==> armies_in_range(f2.armies),
{
    let m = f.minions[index];
    if f.armies.len() > 0 && m.ready() {
        if armies_in_range(f.armies) {
            lemma_blasted_in_range(f.armies, 1);
            lemma_blasted_in_range(f.armies, 2);
        }
        assert(no_stall(f.minions) ==> !(m.class.ability() is Stall));
    }
}

/// The turns of the ability phase keep every countdown within its maximum,
/// as long as no stall is cast.
proof fn lemma_turns_in_range(
    f: Field,
    q: Queues,
    aims: Seq<int>,
    count: nat,
    f2: Field,
    q2: Queues,
)
    requires
        count <= f.minions.len(),
        turns(f, q, aims, count) == Some((f2, q2)),
        minions_in_range(f.minions),
    ensures
        minions_in_range(f2.minions),
        f2.minions.len() >= f.minions.len(),
        no_stall(f.minions) ==> no_stall(f2.minions),
        no_stall(f.minions) && armies_in_range(f.armies) ==> armies_in_range(f2.armies),
    decreases count,
{
    if count > 0 {
        match turns(f, q, aims, (count - 1) as nat) {
            Some((f1, q1)) => {
                lemma_turns_in_range(f, q, aims, (count - 1) as nat, f1, q1);
                lemma_turn_in_range(f1, q1, count - 1, aims[count - 1], f2, q2);
            },
            None => {},
        }
    }
}

/// Single-target heals leave every countdown as it was.
proof fn lemma_mended_in_range(
    minions: Seq<Minion>,
    amounts: Seq<usize>,
    targets: Seq<int>,
    after: Seq<Minion>,
)
    requires
        mended(minions, amounts, targets) == Some(after),
        minions_in_range(minions),
    ensures
        minions_in_range(after),
    decreases amounts.len(),
{
    if amounts.len() > 0 && minions.len() > 0 {
        match mended(minions, amounts.drop_last(), targets) {
            Some(before) => {
                lemma_mended_in_range(minions, amounts.drop_last(), targets, before);
            },
            None => {},
        }
    }
}

/// Heals for all leave every countdown as it was.
proof fn lemma_all_mended_in_range(minions: Seq<Minion>, amounts: Seq<usize>)
    requires
        minions_in_range(minions),
    ensures
        minions_in_range(all_mended(minions, amounts)),
    decreases amounts.len(),
{
    if amounts.len() > 0 {
        lemma_all_mended_in_range(minions, amounts.drop_last());
    }
}

/// Overheals for all leave every countdown as it was.
proof fn lemma_all_bolstered_in_range(minions: Seq<Minion>, amounts: Seq<usize>)
    requires
        minions_in_range(minions),
    ensures
        minions_in_range(all_bolstered(minions, amounts)),
    decreases amounts.len(),
{
    if amounts.len() > 0 {
        lemma_all_bolstered_in_range(minions, amounts.drop_last());
    }
}

/// Single-target countdown cuts only lower countdowns.
proof fn lemma_quickened_in_range(
    minions: Seq<Minion>,
    amounts: Seq<usize>,
    targets: Seq<int>,
    after: Seq<Minion>,
)
    requires
        quickened(minions, amounts, targets) == Some(after),
        minions_in_range(minions),
    ensures
        minions_in_range(after),
    decreases amounts.len(),
{
    if amounts.len() > 0 && minions.len() > 0 {
        match quickened(minions, amounts.drop_last(), targets) {
            Some(before) => {
                lemma_quickened_in_range(minions, amounts.drop_last(), targets, before);
            },
            None => {},
        }
    }
}

/// Countdown cuts for all only lower countdowns.
proof fn lemma_all_quickened_in_range(minions: Seq<Minion>, amounts: Seq<usize>)
    requires
        minions_in_range(minions),
    ensures
        minions_in_range(all_quickened(minions, amounts)),
    decreases amounts.len(),
{
    if amounts.len() > 0 {
        lemma_all_quickened_in_range(minions, amounts.drop_last());
    }
}

/// Army attacks leave the countdown of every survivor as it was.
proof fn lemma_assaulted_in_range(
    minions: Seq<Minion>,
    attacks: Seq<usize>,
    targets: Seq<int>,
    after: Seq<Minion>,
)
    requires
        assaulted(minions, attacks, targets) == Some(after),
        minions_in_range(minions),
    ensures
        minions_in_range(after),
    decreases attacks.len(),
{
    if attacks.len() > 0 {
        match assaulted(minions, attacks.drop_last(), targets) {
            Some(before) => {
                lemma_assaulted_in_range(minions, attacks.drop_last(), targets, before);
            },
            None => {},
        }
    }
}

/// A tick keeps the countdown of every minion on the field within its
/// maximum, whatever the picks. Minions that enter during the tick enter
/// within range.
pub proof fn lemma_tick_keeps_minion_countdowns(
    f: Field,
    picks: Picks,
    after: Field,
    outcome: Outcome,
)
    requires
        tick(f, picks) == Some((after, outcome)),
        minions_in_range(f.minions),
    ensures
        minions_in_range(after.minions),
{
    if f.armies.len() > 0 {
        let lined_up = Field { armies: marched(f.armies), ..f };
        match ability_phase(lined_up, Queues::empty(), picks.aims) {
            Some((f1, q)) => {
                lemma_turns_in_range(
                    lined_up,
                    Queues::empty(),
                    picks.aims,
                    lined_up.minions.len(),
                    f1,
                    q,
                );
                if f1.armies.len() > 0 {
                    lemma_settled_in_range(f1.minions, q, picks.heals, picks.reductions);
                    match settled(f1.minions, q, picks.heals, picks.reductions) {
                        Some(m2) => {
                            lemma_assaulted_in_range(
                                m2,
                                volley(f.armies),
                                picks.attacks,
                                after.minions,
                            );
                        },
                        None => {},
                    }
                }
            },
            None => {},
        }
    }
}

/// The queued effects on minions keep every countdown within its maximum.
proof fn lemma_settled_in_range(
    minions: Seq<Minion>,
    q: Queues,
    heal_targets: Seq<int>,
    reduction_targets: Seq<int>,
)
    requires
        minions_in_range(minions),
        settled(minions, q, heal_targets, reduction_targets) is Some,
    ensures
        minions_in_range(settled(minions, q, heal_targets, reduction_targets).unwrap()),
{
    match mended(minions, q.heals, heal_targets) {
        Some(m1) => {
            lemma_mended_in_range(minions, q.heals, heal_targets, m1);
            let m2 = all_mended(m1, q.aoe_heals);
            lemma_all_mended_in_range(m1, q.aoe_heals);
            let m3 = all_bolstered(m2, q.aoe_overheals);
            lemma_all_bolstered_in_range(m2, q.aoe_overheals);
            match quickened(m3, q.reductions, reduction_targets) {
                Some(m4) => {
                    lemma_quickened_in_range(m3, q.reductions, reduction_targets, m4);
                    lemma_all_quickened_in_range(m4, q.aoe_reductions);
                },
                None => {},
            }
        },
        None => {},
    }
}

/// A tick keeps the countdown of every army within its maximum, whatever
/// the picks, on a field where no minion stalls armies.
pub proof fn lemma_tick_keeps_army_countdowns(
    f: Field,
    picks: Picks,
    after: Field,
    outcome: Outcome,
)
    requires
        tick(f, picks) == Some((after, outcome)),
        minions_in_range(f.minions),
        armies_in_range(f.armies),
        no_stall(f.minions),
    ensures
        armies_in_range(after.armies),
{
    if f.armies.len() > 0 {
        let lined_up = Field { armies: marched(f.armies), ..f };
        assert(armies_in_range(lined_up.armies));
        match ability_phase(lined_up, Queues::empty(), picks.aims) {
            Some((f1, q)) => {
                lemma_turns_in_range(
                    lined_up,
                    Queues::empty(),
                    picks.aims,
                    lined_up.minions.len(),
                    f1,
                    q,
                );
            },
            None => {},
        }
    }
}

/// Attacks on an empty line change nothing, whatever the picks.
pub proof fn lemma_assault_on_nobody(attacks: Seq<usize>, targets: Seq<int>)
    ensures
        assaulted(Seq::empty(), attacks, targets) == Some(Seq::<Minion>::empty()),
    decreases attacks.len(),
{
    if attacks.len() > 0 {
        lemma_assault_on_nobody(attacks.drop_last(), targets);
    }
}

/// With armies on the field and no minion, a tick ends the run in defeat
/// and changes nothing but the countdowns of the armies.
pub proof fn lemma_tick_without_minions(f: Field, picks: Picks)
    requires
        f.minions.len() == 0,
        f.armies.len() > 0,
    ensures
        tick(f, picks) == Some(
            (Field { armies: marched(f.armies), ..f }, Outcome::RunDefeated),
        ),
{
    let lined_up = Field { armies: marched(f.armies), ..f };
    assert(ability_phase(lined_up, Queues::empty(), picks.aims) == Some(
        (lined_up, Queues::empty()),
    ));
    assert(f.minions == Seq::<Minion>::empty());
    lemma_assault_on_nobody(volley(f.armies), picks.attacks);
}

/// How a tick ends is read off the field it leaves: the round is won
/// exactly if no army is left, and the run is lost exactly if armies are
/// left and no minion is.
pub proof fn lemma_tick_outcomes(f: Field, picks: Picks, after: Field, outcome: Outcome)
    requires
        tick(f, picks) == Some((after, outcome)),
    ensures
        outcome == Outcome::RoundWon <==> after.armies.len() == 0,
        outcome == Outcome::RunDefeated <==> after.armies.len() > 0 && after.minions.len() == 0,
        outcome == Outcome::Ongoing <==> after.armies.len() > 0 && after.minions.len() > 0,
{
}

/// Once no army is left, the turn of a minion changes nothing: no ability
/// is resolved against an empty line.
pub proof fn lemma_turn_after_the_last_army(f: Field, q: Queues, index: int, aim: int)
    requires
        f.armies.len() == 0,
    ensures
        turn(f, q, index, aim) == Some((f, q)),
{
}

/// The baseline of a wave: its health is the difficulty, its amount a
/// fifth of it, rounded down. A wave spawns one army more than its amount,
/// so a wave without penalties on its amount spawns a fifth of the
/// difficulty, rounded down, and one.
pub proof fn lemma_wave_baseline(difficulty: int, roster: Seq<RosterEntry>)
    requires
        0 <= difficulty,
    ensures
        baseline(difficulty).health == difficulty,
        baseline(difficulty).amount == difficulty / 5,
        armies_of(baseline(difficulty)).len() == difficulty / 5 + 1,
        armies_of(wave(difficulty, roster)).len() == wave(difficulty, roster).amount + 1,
        difficulty % 5 != 0 || roster_bonus(roster).amount == 0 ==> armies_of(
            wave(difficulty, roster),
        ).len() == difficulty / 5 + 1,
{
    lemma_roster_bonus_nonnegative(roster);
}

/// Penalties count on every fifth difficulty and on no other: off a fifth
/// difficulty the wave is the baseline, on one it is the baseline and the
/// roster's penalties. So the wave differs from the baseline exactly on a
/// fifth difficulty with a roster whose penalties add something.
pub proof fn lemma_penalties_every_fifth(difficulty: int, roster: Seq<RosterEntry>)
    ensures
        difficulty % 5 != 0 ==> wave(difficulty, roster) == baseline(difficulty),
        difficulty % 5 == 0 ==> wave(difficulty, roster) == baseline(difficulty).plus(
            roster_bonus(roster),
        ),
        wave(difficulty, roster) != baseline(difficulty) <==> difficulty % 5 == 0 && roster_bonus(
            roster,
        ) != Stats::zero(),
        Stats::zero().within(roster_bonus(roster)),
{
    lemma_roster_bonus_nonnegative(roster);
}

/// The penalties of a roster add nothing negative.
pub proof fn lemma_roster_bonus_nonnegative(roster: Seq<RosterEntry>)
    ensures
        Stats::zero().within(roster_bonus(roster)),
    decreases roster.len(),
{
    if roster.len() > 0 {
        lemma_roster_bonus_nonnegative(roster.drop_last());
        lemma_tags_bonus_nonnegative(roster.last().class.penalties(), roster.last().bounty as int);
    }
}

/// The tags of a unit add nothing negative.
pub proof fn lemma_tags_bonus_nonnegative(tags: Seq<Penalty>, bounty: int)
    requires
        0 <= bounty,
    ensures
        Stats::zero().within(tags_bonus(tags, bounty)),
    decreases tags.len(),
{
    if tags.len() > 0 {
        lemma_tags_bonus_nonnegative(tags.drop_last(), bounty);
    }
}

} // verus!
