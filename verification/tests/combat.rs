use autobattler::catalog::{Class, Minion};
use autobattler::combat::{
    blast, hasten, hasten_all, heal, heal_all, march, overheal_all, stall, strike, wound, Army,
};

fn army(health: usize, countdown: usize) -> Army {
    Army { health, max_health: 20, damage: 4, countdown, max_countdown: 3 }
}

fn minion(health: usize, max_health: usize, countdown: usize) -> Minion {
    Minion { class: Class::Cleric, health, max_health, countdown, max_countdown: 3 }
}

#[test]
fn strike_weakens_an_army_that_survives() {
    let mut armies = vec![army(10, 2), army(7, 2)];
    strike(&mut armies, 1, 3);
    assert_eq!(armies, vec![army(10, 2), army(4, 2)]);
}

#[test]
fn strike_removes_an_army_whose_health_equals_the_damage() {
    let mut armies = vec![army(10, 2), army(3, 2), army(9, 1)];
    strike(&mut armies, 1, 3);
    assert_eq!(armies, vec![army(10, 2), army(9, 1)]);
}

#[test]
fn blast_hits_all_and_removes_the_fallen_in_order() {
    let mut armies = vec![army(2, 1), army(5, 2), army(1, 3), army(3, 1)];
    blast(&mut armies, 2);
    assert_eq!(armies, vec![army(3, 2), army(1, 1)]);
}

#[test]
fn blast_on_an_empty_line_does_nothing() {
    let mut armies: Vec<Army> = vec![];
    blast(&mut armies, 2);
    assert!(armies.is_empty());
}

#[test]
fn stall_adds_to_the_countdown_past_the_maximum() {
    let mut armies = vec![army(10, 3)];
    stall(&mut armies, 0, 3);
    assert_eq!(armies[0].countdown, 6);
    assert_eq!(armies[0].max_countdown, 3);
}

#[test]
fn march_counts_down_and_queues_the_damage_of_those_that_fire() {
    let mut armies = vec![
        Army { health: 5, max_health: 5, damage: 7, countdown: 1, max_countdown: 4 },
        Army { health: 5, max_health: 5, damage: 9, countdown: 3, max_countdown: 4 },
        Army { health: 5, max_health: 5, damage: 2, countdown: 1, max_countdown: 2 },
    ];
    let attacks = march(&mut armies);
    assert_eq!(attacks, vec![7, 2]);
    assert_eq!(armies[0].countdown, 4);
    assert_eq!(armies[1].countdown, 2);
    assert_eq!(armies[2].countdown, 2);
}

#[test]
fn march_treats_a_countdown_of_zero_as_due() {
    let mut armies = vec![Army { health: 5, max_health: 5, damage: 7, countdown: 0, max_countdown: 4 }];
    let attacks = march(&mut armies);
    assert_eq!(attacks, vec![7]);
    assert_eq!(armies[0].countdown, 4);
}

#[test]
fn heal_stops_at_the_maximum() {
    let mut minions = vec![minion(6, 8, 2)];
    heal(&mut minions, 0, 5);
    assert_eq!(minions[0].health, 8);
}

#[test]
fn heal_adds_the_amount_below_the_maximum() {
    let mut minions = vec![minion(3, 8, 2)];
    heal(&mut minions, 0, 2);
    assert_eq!(minions[0].health, 5);
}

#[test]
fn heal_leaves_an_overhealed_minion_alone() {
    let mut minions = vec![minion(11, 8, 2)];
    heal(&mut minions, 0, 2);
    assert_eq!(minions[0].health, 11);
}

#[test]
fn heal_all_never_raises_health_above_the_maximum() {
    let mut minions = vec![minion(1, 8, 2), minion(7, 8, 2), minion(8, 8, 2), minion(12, 8, 2)];
    heal_all(&mut minions, 3);
    let healths: Vec<usize> = minions.iter().map(|m| m.health).collect();
    assert_eq!(healths, vec![4, 8, 8, 12]);
    for (m, before) in minions.iter().zip([1usize, 7, 8, 12]) {
        assert!(m.health <= m.max_health || m.health == before);
    }
}

#[test]
fn overheal_can_raise_health_above_the_maximum() {
    let mut minions = vec![minion(8, 8, 2), minion(3, 8, 2)];
    overheal_all(&mut minions, 1);
    assert_eq!(minions[0].health, 9);
    assert!(minions[0].health > minions[0].max_health);
    assert_eq!(minions[1].health, 4);
}

#[test]
fn hasten_cuts_the_countdown() {
    let mut minions = vec![minion(5, 8, 3)];
    hasten(&mut minions, 0, 1);
    assert_eq!(minions[0].countdown, 2);
}

#[test]
fn hasten_stops_at_zero() {
    let mut minions = vec![minion(5, 8, 2)];
    hasten(&mut minions, 0, 3);
    assert_eq!(minions[0].countdown, 0);
}

#[test]
fn hasten_all_cuts_every_countdown() {
    let mut minions = vec![minion(5, 8, 3), minion(5, 8, 0), minion(5, 8, 1)];
    hasten_all(&mut minions, 1);
    let countdowns: Vec<usize> = minions.iter().map(|m| m.countdown).collect();
    assert_eq!(countdowns, vec![2, 0, 0]);
}

#[test]
fn wound_weakens_a_minion_that_survives() {
    let mut minions = vec![minion(5, 8, 3), minion(6, 8, 3)];
    wound(&mut minions, 0, 4);
    assert_eq!(minions[0].health, 1);
    assert_eq!(minions.len(), 2);
}

#[test]
fn wound_removes_a_minion_whose_health_does_not_exceed_the_damage() {
    let mut minions = vec![minion(5, 8, 3), minion(6, 8, 3), minion(7, 8, 3)];
    wound(&mut minions, 1, 6);
    assert_eq!(minions, vec![minion(5, 8, 3), minion(7, 8, 3)]);
}
