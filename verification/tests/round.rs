use autobattler::battle::{Battle, Outcome};
use autobattler::catalog::{Class, Minion};
use autobattler::combat::Army;
use autobattler::party::{Party, RosterEntry};
use autobattler::round::{Game, Intent, Phase, Refusal, RoundContext};
use rand::rngs::StdRng;
use rand::SeedableRng;

fn owned(entries: &[(Class, usize)]) -> Party {
    Party {
        entries: entries.iter().map(|(class, bounty)| RosterEntry { class: *class, bounty: *bounty }).collect(),
    }
}

fn drafting(power: usize, power_left: usize, party: Party) -> Game {
    Game {
        rng: StdRng::seed_from_u64(5),
        round: RoundContext { power, phase: Phase::Draft, power_left },
        choices: [Class::Arcanist, Class::Cleric, Class::Warrior],
        party,
        battle: Battle::new(),
        defeated: false,
    }
}

fn discarding(power: usize, party: Party) -> Game {
    Game {
        rng: StdRng::seed_from_u64(5),
        round: RoundContext { power, phase: Phase::Discard, power_left: 0 },
        choices: [Class::Arcanist, Class::Cleric, Class::Warrior],
        party,
        battle: Battle::new(),
        defeated: false,
    }
}

fn fighting(power: usize, party: Party, battle: Battle) -> Game {
    Game {
        rng: StdRng::seed_from_u64(5),
        round: RoundContext { power, phase: Phase::Fight, power_left: 0 },
        choices: [Class::Arcanist, Class::Cleric, Class::Warrior],
        party,
        battle,
        defeated: false,
    }
}

fn fighter(class: Class, health: usize, countdown: usize) -> Minion {
    let t = class.get_type();
    Minion { class, health, max_health: t.max_health, countdown, max_countdown: t.max_countdown }
}

fn enemy(health: usize, damage: usize, countdown: usize) -> Army {
    Army { health, max_health: health, damage, countdown, max_countdown: 3 }
}

fn tier_zero(class: Class) -> bool {
    matches!(class, Class::Arcanist | Class::Cleric | Class::Warrior | Class::Scout)
}

#[test]
fn a_new_run_starts_with_a_draft_at_difficulty_one() {
    let game = Game::new(17);
    assert_eq!(game.round, RoundContext { power: 1, phase: Phase::Draft, power_left: 1 });
    assert!(game.party.entries.is_empty());
    assert!(game.battle.minions.is_empty() && game.battle.armies.is_empty());
    assert!(!game.defeated);
    for class in game.choices.iter() {
        assert!(tier_zero(*class));
    }
}

#[test]
fn the_same_seed_starts_the_same_run() {
    assert_eq!(Game::new(8).choices, Game::new(8).choices);
    assert_eq!(Game::new(8).rng, Game::new(8).rng);
    assert_ne!(Game::new(8).rng, Game::new(9).rng);
}

#[test]
fn a_budget_of_four_is_used_up_by_one_pick_and_set_back_to_one() {
    let mut game = drafting(4, 4, Party::new());
    assert_eq!(game.draft_tick(1), Ok(()));
    assert_eq!(game.party.entries, vec![RosterEntry { class: Class::Cleric, bounty: 0 }]);
    assert_eq!(game.round, RoundContext { power: 4, phase: Phase::Draft, power_left: 1 });
    // a new draft within a budget of one
    for class in game.choices.iter() {
        assert!(tier_zero(*class));
    }
}

#[test]
fn a_budget_of_sixteen_is_used_up_by_one_pick_and_the_draft_ends() {
    let mut game = drafting(16, 16, owned(&[(Class::Scout, 2), (Class::Rogue, 1)]));
    assert_eq!(game.draft_tick(2), Ok(()));
    assert_eq!(game.party.entries.len(), 3);
    assert_eq!(game.party.entries[2], RosterEntry { class: Class::Warrior, bounty: 0 });
    assert_eq!(game.round, RoundContext { power: 16, phase: Phase::Discard, power_left: 0 });
    // the choices are left as they were
    assert_eq!(game.choices, [Class::Arcanist, Class::Cleric, Class::Warrior]);
}

#[test]
fn a_budget_above_the_cap_pays_sixteen_a_pick() {
    let mut game = drafting(40, 40, Party::new());
    assert_eq!(game.draft_tick(0), Ok(()));
    assert_eq!(game.round.power_left, 24);
    assert_eq!(game.draft_tick(0), Ok(()));
    assert_eq!(game.round.power_left, 8);
    assert_eq!(game.round.phase, Phase::Draft);
    assert_eq!(game.draft_tick(0), Ok(()));
    assert_eq!(game.round.power_left, 0);
    assert_eq!(game.round.phase, Phase::Discard);
    assert_eq!(game.party.entries.len(), 3);
}

#[test]
fn the_first_draft_goes_on_until_three_units_are_owned() {
    let mut game = Game::new(23);
    assert_eq!(game.draft_tick(0), Ok(()));
    assert_eq!(game.round.phase, Phase::Draft);
    assert_eq!(game.round.power_left, 1);
    assert_eq!(game.draft_tick(1), Ok(()));
    assert_eq!(game.round.phase, Phase::Draft);
    assert_eq!(game.draft_tick(2), Ok(()));
    assert_eq!(game.round.phase, Phase::Discard);
    assert_eq!(game.party.entries.len(), 3);
    assert_eq!(game.round.power, 1);
}

#[test]
fn round_context_accounts_for_a_pick() {
    let mut round = RoundContext { power: 9, phase: Phase::Draft, power_left: 9 };
    assert_eq!(round.draft_tick(5), Ok(()));
    assert_eq!(round, RoundContext { power: 9, phase: Phase::Discard, power_left: 0 });
    let mut round = RoundContext { power: 9, phase: Phase::Draft, power_left: 9 };
    assert_eq!(round.draft_tick(2), Ok(()));
    assert_eq!(round, RoundContext { power: 9, phase: Phase::Draft, power_left: 1 });
    let mut round = RoundContext { power: 20, phase: Phase::Draft, power_left: 20 };
    assert_eq!(round.draft_tick(1), Ok(()));
    assert_eq!(round, RoundContext { power: 20, phase: Phase::Draft, power_left: 4 });
    let mut round = RoundContext { power: 20, phase: Phase::Fight, power_left: 0 };
    assert_eq!(round.draft_tick(1), Err(Refusal::WrongPhase));
    assert_eq!(round, RoundContext { power: 20, phase: Phase::Fight, power_left: 0 });
}

#[test]
fn a_draft_choice_out_of_range_is_refused() {
    let mut game = drafting(4, 4, Party::new());
    assert_eq!(game.draft_tick(3), Err(Refusal::NoSuchChoice));
    assert!(game.party.entries.is_empty());
    assert_eq!(game.round, RoundContext { power: 4, phase: Phase::Draft, power_left: 4 });
}

#[test]
fn intents_of_another_phase_are_refused() {
    let mut game = drafting(4, 4, owned(&[(Class::Scout, 0)]));
    assert_eq!(game.discard_tick(0), Err(Refusal::WrongPhase));
    assert_eq!(game.confirm_discard(), Err(Refusal::WrongPhase));
    assert_eq!(game.fight_tick(), Err(Refusal::WrongPhase));
    assert_eq!(game.party.entries.len(), 1);
    assert_eq!(game.round.phase, Phase::Draft);

    let mut game = discarding(4, owned(&[(Class::Scout, 0)]));
    assert_eq!(game.draft_tick(0), Err(Refusal::WrongPhase));
    assert_eq!(game.fight_tick(), Err(Refusal::WrongPhase));
    assert_eq!(game.party.entries.len(), 1);
}

#[test]
fn removing_a_slot_moves_the_rest_up() {
    let mut game = discarding(3, owned(&[(Class::Scout, 0), (Class::Rogue, 1), (Class::Sage, 2)]));
    assert_eq!(game.discard_tick(1), Ok(()));
    assert_eq!(
        game.party.entries,
        vec![
            RosterEntry { class: Class::Scout, bounty: 0 },
            RosterEntry { class: Class::Sage, bounty: 2 }
        ]
    );
    assert_eq!(game.round.phase, Phase::Discard);
}

#[test]
fn removing_a_slot_that_holds_no_unit_is_refused() {
    let mut game = discarding(3, owned(&[(Class::Scout, 0), (Class::Rogue, 1)]));
    assert_eq!(game.discard_tick(2), Err(Refusal::NoSuchSlot));
    assert_eq!(game.discard_tick(9), Err(Refusal::NoSuchSlot));
    assert_eq!(game.party.entries.len(), 2);
}

#[test]
fn the_discard_phase_shows_the_roster_fresh() {
    let game = discarding(3, owned(&[(Class::Sage, 2), (Class::Pope, 1)]));
    let shown = game.discard_start();
    assert_eq!(
        shown,
        vec![Class::Sage.get_type().get_minion(), Class::Pope.get_type().get_minion()]
    );
}

#[test]
fn confirming_lines_up_both_sides() {
    let mut game = discarding(10, owned(&[(Class::Cleric, 3), (Class::Warrior, 4)]));
    assert_eq!(game.confirm_discard(), Ok(()));
    assert_eq!(game.round, RoundContext { power: 10, phase: Phase::Fight, power_left: 0 });
    assert_eq!(
        game.battle.minions,
        vec![Class::Cleric.get_type().get_minion(), Class::Warrior.get_type().get_minion()]
    );
    // health 10 + 6, amount 2 + 2, countdown 2, damage 5
    assert_eq!(game.battle.armies.len(), 5);
    assert_eq!(
        game.battle.armies[4],
        Army { health: 26, max_health: 26, damage: 6, countdown: 3, max_countdown: 3 }
    );
    // the roster itself is as it was
    assert_eq!(game.party.entries.len(), 2);
    assert_eq!(game.party.entries[0].bounty, 3);
}

#[test]
fn confirming_a_wave_too_large_for_the_machine_is_refused() {
    let mut game = discarding(usize::MAX, owned(&[(Class::Cleric, usize::MAX - 1)]));
    assert_eq!(game.confirm_discard(), Err(Refusal::TooLarge));
    assert_eq!(game.round.phase, Phase::Discard);
    assert!(game.battle.armies.is_empty());
}

#[test]
fn winning_a_round_raises_difficulty_and_bounties_by_one() {
    let mut game = fighting(
        7,
        owned(&[(Class::Arcanist, 0), (Class::Scout, 3), (Class::Pope, 6)]),
        Battle { minions: vec![fighter(Class::Arcanist, 10, 0)], armies: vec![enemy(3, 1, 3)] },
    );
    assert_eq!(game.fight_tick(), Ok(Outcome::RoundWon));
    assert_eq!(game.round, RoundContext { power: 8, phase: Phase::Draft, power_left: 8 });
    let bounties: Vec<usize> = game.party.entries.iter().map(|e| e.bounty).collect();
    assert_eq!(bounties, vec![1, 4, 7]);
    let classes: Vec<Class> = game.party.entries.iter().map(|e| e.class).collect();
    assert_eq!(classes, vec![Class::Arcanist, Class::Scout, Class::Pope]);
    assert!(game.battle.minions.is_empty() && game.battle.armies.is_empty());
    assert!(!game.defeated);
}

#[test]
fn the_roster_keeps_its_bounties_while_the_fight_goes_on() {
    let mut game = fighting(
        7,
        owned(&[(Class::Tactician, 2)]),
        Battle { minions: vec![fighter(Class::Tactician, 8, 4)], armies: vec![enemy(30, 1, 3)] },
    );
    assert_eq!(game.fight_tick(), Ok(Outcome::Ongoing));
    assert_eq!(game.round, RoundContext { power: 7, phase: Phase::Fight, power_left: 0 });
    assert_eq!(game.party.entries, vec![RosterEntry { class: Class::Tactician, bounty: 2 }]);
    assert_eq!(game.battle.minions[0].countdown, 3);
    assert_eq!(game.battle.armies[0].countdown, 2);
}

#[test]
fn losing_every_minion_ends_the_run() {
    let mut game = fighting(
        7,
        owned(&[(Class::Rogue, 2)]),
        Battle { minions: vec![fighter(Class::Rogue, 4, 1)], armies: vec![enemy(30, 4, 1)] },
    );
    assert_eq!(game.fight_tick(), Ok(Outcome::RunDefeated));
    assert!(game.defeated);
    assert_eq!(game.round.power, 7);
    assert_eq!(game.party.entries, vec![RosterEntry { class: Class::Rogue, bounty: 2 }]);
    // nothing is accepted any more
    assert_eq!(game.fight_tick(), Err(Refusal::RunOver));
    assert_eq!(game.draft_tick(0), Err(Refusal::RunOver));
    assert_eq!(game.discard_tick(0), Err(Refusal::RunOver));
    assert_eq!(game.confirm_discard(), Err(Refusal::RunOver));
    assert_eq!(game.step(Intent::Tick), Err(Refusal::RunOver));
    assert_eq!(game.battle.armies, vec![Army { health: 25, max_health: 30, damage: 4, countdown: 3, max_countdown: 3 }]);
}

#[test]
fn a_fight_with_nobody_on_the_field_is_lost_at_the_first_tick() {
    let mut game = discarding(2, Party::new());
    assert_eq!(game.confirm_discard(), Ok(()));
    assert_eq!(game.battle.armies.len(), 1);
    assert_eq!(game.fight_tick(), Ok(Outcome::RunDefeated));
    assert!(game.defeated);
}

#[test]
fn a_tick_without_room_for_its_numbers_is_refused() {
    let mut game = fighting(
        7,
        owned(&[(Class::Bulwark, 2)]),
        Battle {
            minions: vec![fighter(Class::Bulwark, usize::MAX, 1)],
            armies: vec![enemy(30, 4, 2)],
        },
    );
    assert_eq!(game.fight_tick(), Err(Refusal::TooLarge));
    assert_eq!(game.battle.minions[0].health, usize::MAX);
    assert_eq!(game.battle.armies[0].countdown, 2);
}

#[test]
fn has_room_looks_at_every_number() {
    let roomy = Battle { minions: vec![fighter(Class::Bulwark, 12, 1)], armies: vec![enemy(30, 4, 2)] };
    assert!(roomy.has_room());
    let tall = Battle {
        minions: vec![fighter(Class::Bulwark, 12, 1)],
        armies: vec![Army { countdown: usize::MAX - 2, ..enemy(30, 4, 2) }],
    };
    assert!(!tall.has_room());
    let edge = Battle {
        minions: vec![fighter(Class::Bulwark, usize::MAX - 1, 1)],
        armies: vec![Army { countdown: usize::MAX - 3, ..enemy(30, 4, 2) }],
    };
    assert!(edge.has_room());
    assert!(Battle::new().has_room());
}

#[test]
fn intents_drive_a_whole_round() {
    let mut game = Game::new(31);
    for _ in 0..3 {
        assert_eq!(game.step(Intent::PickDraftChoice(0)), Ok(None));
    }
    assert_eq!(game.round.phase, Phase::Discard);
    assert_eq!(game.step(Intent::PickDraftChoice(0)), Err(Refusal::WrongPhase));
    assert_eq!(game.step(Intent::RemoveRosterSlot(7)), Err(Refusal::NoSuchSlot));
    assert_eq!(game.step(Intent::Tick), Err(Refusal::WrongPhase));
    assert_eq!(game.step(Intent::ConfirmDiscard), Ok(None));
    assert_eq!(game.round.phase, Phase::Fight);
    assert_eq!(game.battle.minions.len(), 3);
    // difficulty 1: one army of health 11, damage 1, countdown 5
    assert_eq!(
        game.battle.armies,
        vec![Army { health: 11, max_health: 11, damage: 1, countdown: 5, max_countdown: 5 }]
    );
    let mut last = Outcome::Ongoing;
    let mut ticks = 0;
    while last == Outcome::Ongoing && ticks < 1000 {
        last = game.step(Intent::Tick).unwrap().unwrap();
        ticks += 1;
    }
    match last {
        Outcome::RoundWon => {
            assert_eq!(game.round, RoundContext { power: 2, phase: Phase::Draft, power_left: 2 });
            assert!(game.party.entries.iter().all(|e| e.bounty == 1));
            assert_eq!(game.party.entries.len(), 3);
        }
        Outcome::RunDefeated => assert!(game.defeated),
        Outcome::Ongoing => panic!("the fight did not end"),
    }
}

#[test]
fn a_run_over_many_rounds_keeps_its_invariants() {
    for seed in 0..10u64 {
        let mut game = Game::new(seed);
        let mut steps = 0;
        while !game.defeated && game.round.power < 12 && steps < 20_000 {
            steps += 1;
            let before = game.round.power;
            match game.round.phase {
                Phase::Draft => {
                    assert!(game.round.power_left >= 1);
                    assert_eq!(game.step(Intent::PickDraftChoice(steps % 3)), Ok(None));
                }
                Phase::Discard => {
                    assert!(game.party.entries.len() >= 3);
                    assert_eq!(game.step(Intent::ConfirmDiscard), Ok(None));
                    assert_eq!(game.battle.armies.len(), before / 5 + 1 + if before % 5 == 0 {
                        game.party.entries.iter().map(|e| {
                            e.class.get_type().penalties.iter().filter(|p| **p == autobattler::catalog::Penalty::IncreasedAmount).count() * (e.bounty / 2)
                        }).sum::<usize>()
                    } else { 0 });
                }
                Phase::Fight => {
                    let outcome = game.step(Intent::Tick).unwrap().unwrap();
                    if outcome == Outcome::RoundWon {
                        assert_eq!(game.round.power, before + 1);
                        assert_eq!(game.round.phase, Phase::Draft);
                    } else {
                        assert_eq!(game.round.power, before);
                    }
                }
            }
            assert!(game.party.entries.iter().all(|e| e.bounty < game.round.power));
            assert!(game.battle.minions.iter().all(|m| m.countdown <= m.max_countdown));
            assert!(game.battle.armies.iter().all(|a| a.countdown >= 1 && a.max_countdown >= 1));
        }
    }
}
