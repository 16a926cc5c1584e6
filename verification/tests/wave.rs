use autobattler::catalog::Class;
use autobattler::combat::Army;
use autobattler::party::{Party, RosterEntry};
use autobattler::wave::{fight_start_pre, spawn_army, wave_params, Wave};

fn roster(entries: &[(Class, usize)]) -> Party {
    Party {
        entries: entries.iter().map(|(class, bounty)| RosterEntry { class: *class, bounty: *bounty }).collect(),
    }
}

fn veterans() -> Party {
    roster(&[(Class::Cleric, 3), (Class::Warrior, 4), (Class::Archmage, 5)])
}

#[test]
fn baseline_for_every_small_difficulty() {
    let nobody = Party::new();
    for d in 1..200usize {
        let w = wave_params(d, &nobody).unwrap();
        assert_eq!(w, Wave { health: d, amount: d / 5, countdown: d / 5, damage: d / 2 });
        let battle = fight_start_pre(d, &nobody).unwrap();
        assert_eq!(battle.armies.len(), d / 5 + 1);
        assert!(battle.minions.is_empty());
    }
}

#[test]
fn penalties_apply_on_a_fifth_difficulty() {
    let w = wave_params(10, &veterans()).unwrap();
    // Cleric: health + 3 * 2; Warrior: amount + 4 / 2;
    // Archmage: damage + 5, countdown + 5 / 2
    assert_eq!(w, Wave { health: 16, amount: 4, countdown: 4, damage: 10 });
}

#[test]
fn penalties_do_not_apply_off_a_fifth_difficulty() {
    let w = wave_params(11, &veterans()).unwrap();
    assert_eq!(w, Wave { health: 11, amount: 2, countdown: 2, damage: 5 });
}

#[test]
fn the_same_roster_meets_different_waves_at_ten_and_eleven() {
    let at_ten = fight_start_pre(10, &veterans()).unwrap();
    let at_eleven = fight_start_pre(11, &veterans()).unwrap();
    assert_eq!(at_ten.armies.len(), 5);
    assert_eq!(at_eleven.armies.len(), 3);
    assert_eq!(
        at_ten.armies[0],
        Army { health: 26, max_health: 26, damage: 11, countdown: 1, max_countdown: 1 }
    );
    assert_eq!(
        at_eleven.armies[0],
        Army { health: 21, max_health: 21, damage: 6, countdown: 3, max_countdown: 3 }
    );
}

#[test]
fn penalties_with_no_bounty_add_nothing() {
    let rookies = roster(&[(Class::Cleric, 0), (Class::Pope, 0), (Class::General, 1)]);
    let w = wave_params(5, &rookies).unwrap();
    // General with bounty 1: health + 2, amount + 0
    assert_eq!(w, Wave { health: 7, amount: 1, countdown: 1, damage: 2 });
}

#[test]
fn every_tag_of_a_class_counts() {
    let w = wave_params(15, &roster(&[(Class::Invincible, 7), (Class::Pope, 6)])).unwrap();
    // Invincible: countdown + 3, damage + 7; Pope: amount + 3, health + 12
    assert_eq!(w, Wave { health: 27, amount: 6, countdown: 6, damage: 14 });
}

#[test]
fn all_armies_of_a_wave_are_alike() {
    let battle = fight_start_pre(20, &Party::new()).unwrap();
    assert_eq!(battle.armies.len(), 5);
    for army in battle.armies.iter() {
        assert_eq!(
            *army,
            Army { health: 30, max_health: 30, damage: 11, countdown: 1, max_countdown: 1 }
        );
    }
}

#[test]
fn the_roster_lines_up_fresh_and_in_order() {
    let battle = fight_start_pre(3, &roster(&[(Class::Rogue, 2), (Class::Sage, 0)])).unwrap();
    assert_eq!(battle.minions.len(), 2);
    assert_eq!(battle.minions[0], Class::Rogue.get_type().get_minion());
    assert_eq!(battle.minions[1], Class::Sage.get_type().get_minion());
    assert_eq!(battle.minions[1].countdown, 3);
    assert_eq!(battle.minions[1].health, 6);
}

#[test]
fn army_countdown_shrinks_with_the_stat_but_not_below_one() {
    let expected = [5usize, 4, 3, 2, 1, 1, 1, 1];
    for (stat, max_countdown) in expected.iter().enumerate() {
        let mut armies = Vec::new();
        spawn_army(&mut armies, 2, 3, stat);
        assert_eq!(
            armies,
            vec![Army {
                health: 12,
                max_health: 12,
                damage: 4,
                countdown: *max_countdown,
                max_countdown: *max_countdown
            }]
        );
    }
}

#[test]
fn every_army_enters_wound_up_within_one_to_five_ticks() {
    for stat in 0..40usize {
        for health in [0usize, 1, 77] {
            let mut armies = Vec::new();
            spawn_army(&mut armies, health, health / 2, stat);
            let army = armies[0];
            assert!(1 <= army.max_countdown && army.max_countdown <= 5);
            assert_eq!(army.countdown, army.max_countdown);
            assert_eq!(army.health, army.max_health);
            assert_eq!(army.health, 10 + health);
            assert_eq!(army.damage, 1 + health / 2);
        }
    }
}

#[test]
fn a_lineup_starts_with_every_countdown_in_range() {
    let everyone = roster(&[
        (Class::Arcanist, 0), (Class::Cleric, 0), (Class::Warrior, 0), (Class::Scout, 0),
        (Class::Pyromancer, 0), (Class::Priest, 0), (Class::Rogue, 0), (Class::Tactician, 0),
        (Class::Necromancer, 0), (Class::Oracle, 0), (Class::Bulwark, 0), (Class::Sage, 0),
        (Class::Archmage, 0), (Class::Pope, 0), (Class::Invincible, 0), (Class::General, 0),
    ]);
    let battle = fight_start_pre(7, &everyone).unwrap();
    assert_eq!(battle.minions.len(), 16);
    for m in battle.minions.iter() {
        assert!(m.countdown <= m.max_countdown);
    }
    // a lone Arcanist starts at 1 of 1
    let alone = fight_start_pre(1, &roster(&[(Class::Arcanist, 0)])).unwrap();
    assert_eq!(alone.minions[0].countdown, 1);
    assert_eq!(alone.minions[0].max_countdown, 1);
}

#[test]
fn a_wave_too_large_for_the_machine_is_not_computed() {
    // usize::MAX is a multiple of 5, so the penalties apply.
    assert_eq!(usize::MAX % 5, 0);
    let party = roster(&[(Class::Cleric, usize::MAX / 2)]);
    assert_eq!(wave_params(usize::MAX, &party), None);
    assert!(fight_start_pre(usize::MAX, &party).is_none());
}

#[test]
fn a_wave_whose_armies_do_not_fit_is_not_spawned() {
    // The numbers themselves fit, an army's health of ten more does not.
    let nobody = Party::new();
    assert!(wave_params(usize::MAX - 1, &nobody).is_some());
    assert!(fight_start_pre(usize::MAX - 1, &nobody).is_none());
}
