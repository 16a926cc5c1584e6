//! Facts about the model of the ability phase: that it reads only the
//! picks it needs, and that a field with room for a tick keeps every
//! number within the machine's range.

use crate::battle::{
    assaulted, mended, quickened, total, turn, turn_fits, turns, Field, Queues,
};
use crate::catalog::Minion;
use crate::combat::{blasted, Army};
use vstd::prelude::*;

verus! {

/// The first `count` turns read no aim beyond the first `count`.
pub proof fn lemma_turns_read_prefix(f: Field, q: Queues, a: Seq<int>, b: Seq<int>, count: nat)
    requires
        forall|j: int| 0 <= j < count ==> a[j] == b[j],
    ensures
        turns(f, q, a, count) == turns(f, q, b, count),
    decreases count,
{
    if count > 0 {
        lemma_turns_read_prefix(f, q, a, b, (count - 1) as nat);
    }
}

/// A blast changes no countdown: a bound on the countdowns before it
/// holds after it.
pub proof fn lemma_blasted_countdowns(armies: Seq<Army>, damage: usize, limit: int)
    requires
        forall|j: int|
            0 <= j < armies.len() ==> (#[trigger] armies[j]).countdown <= limit
                && armies[j].max_countdown <= limit,
    ensures
        blasted(armies, damage).len() <= armies.len(),
        forall|j: int|
            0 <= j < blasted(armies, damage).len() ==> (#[trigger] blasted(
                armies,
                damage,
            )[j]).countdown <= limit && blasted(armies, damage)[j].max_countdown <= limit,
    decreases armies.len(),
{
    if armies.len() > 0 {
        lemma_blasted_countdowns(armies.drop_last(), damage, limit);
    }
}

/// One turn uses up one turn's worth of room and no more.
pub proof fn lemma_turn_spare(
    f: Field,
    q: Queues,
    index: int,
    aim: int,
    n: int,
    left: int,
    f2: Field,
    q2: Queues,
)
    requires
        f.spare(n, left),
        left >= 1,
        0 <= index < f.minions.len(),
        turn(f, q, index, aim) == Some((f2, q2)),
    ensures
        turn_fits(f, index, aim),
        f2.spare(n, left - 1),
        f2.minions.len() >= f.minions.len(),
        total(q2.aoe_overheals) <= total(q.aoe_overheals) + 1,
{
    let m = f.minions[index];
    if f.armies.len() > 0 && m.ready() {
        lemma_blasted_countdowns(f.armies, 1, usize::MAX - 3 * left);
        lemma_blasted_countdowns(f.armies, 2, usize::MAX - 3 * left);
        if q2.aoe_overheals != q.aoe_overheals {
            assert(q2.aoe_overheals.drop_last() == q.aoe_overheals);
        }
    }
}

/// The first `count` turns of a field with room for `n` turns leave room
/// for the rest, and queue at most one point of overheal each.
pub proof fn lemma_turns_spare(
    f: Field,
    q: Queues,
    aims: Seq<int>,
    count: nat,
    n: int,
    f2: Field,
    q2: Queues,
)
    requires
        f.spare(n, n),
        count <= n <= f.minions.len(),
        turns(f, q, aims, count) == Some((f2, q2)),
    ensures
        f2.spare(n, n - count),
        f2.minions.len() >= f.minions.len(),
        total(q2.aoe_overheals) <= total(q.aoe_overheals) + count,
    decreases count,
{
    if count > 0 {
        match turns(f, q, aims, (count - 1) as nat) {
            Some((f1, q1)) => {
                lemma_turns_spare(f, q, aims, (count - 1) as nat, n, f1, q1);
                lemma_turn_spare(f1, q1, count - 1, aims[count - 1], n, n - (count - 1), f2, q2);
            },
            None => {},
        }
    }
}

/// The queued single-target heals read no target beyond their number.
pub proof fn lemma_mended_read_prefix(
    minions: Seq<Minion>,
    amounts: Seq<usize>,
    a: Seq<int>,
    b: Seq<int>,
)
    requires
        forall|j: int| 0 <= j < amounts.len() ==> a[j] == b[j],
    ensures
        mended(minions, amounts, a) == mended(minions, amounts, b),
    decreases amounts.len(),
{
    if amounts.len() > 0 {
        lemma_mended_read_prefix(minions, amounts.drop_last(), a, b);
    }
}

/// The queued single-target countdown cuts read no target beyond their
/// number.
pub proof fn lemma_quickened_read_prefix(
    minions: Seq<Minion>,
    amounts: Seq<usize>,
    a: Seq<int>,
    b: Seq<int>,
)
    requires
        forall|j: int| 0 <= j < amounts.len() ==> a[j] == b[j],
    ensures
        quickened(minions, amounts, a) == quickened(minions, amounts, b),
    decreases amounts.len(),
{
    if amounts.len() > 0 {
        lemma_quickened_read_prefix(minions, amounts.drop_last(), a, b);
    }
}

/// The army attacks read no target beyond their number.
pub proof fn lemma_assaulted_read_prefix(
    minions: Seq<Minion>,
    attacks: Seq<usize>,
    a: Seq<int>,
    b: Seq<int>,
)
    requires
        forall|j: int| 0 <= j < attacks.len() ==> a[j] == b[j],
    ensures
        assaulted(minions, attacks, a) == assaulted(minions, attacks, b),
    decreases attacks.len(),
{
    if attacks.len() > 0 {
        lemma_assaulted_read_prefix(minions, attacks.drop_last(), a, b);
    }
}

/// The sum of the first `count` amounts is at most the sum of all.
pub proof fn lemma_total_prefix(amounts: Seq<usize>, count: int)
    requires
        0 <= count <= amounts.len(),
    ensures
        0 <= total(amounts.take(count)) <= total(amounts),
    decreases amounts.len(),
{
    if count == amounts.len() {
        assert(amounts.take(count) == amounts);
        if amounts.len() > 0 {
            lemma_total_prefix(amounts.drop_last(), count - 1);
            assert(amounts.drop_last().take(count - 1) == amounts.drop_last());
        }
    } else {
        lemma_total_prefix(amounts.drop_last(), count);
        assert(amounts.drop_last().take(count) == amounts.take(count));
    }
}

} // verus!
