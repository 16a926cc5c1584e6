use autobattler::catalog::{Ability, Class, Minion, Penalty};

const ALL: [Class; 16] = [
    Class::Arcanist,
    Class::Cleric,
    Class::Warrior,
    Class::Scout,
    Class::Pyromancer,
    Class::Priest,
    Class::Rogue,
    Class::Tactician,
    Class::Necromancer,
    Class::Oracle,
    Class::Bulwark,
    Class::Sage,
    Class::Archmage,
    Class::Pope,
    Class::Invincible,
    Class::General,
];

#[test]
fn catalog_entry_of_arcanist() {
    let t = Class::Arcanist.get_type();
    assert_eq!(t.class, Class::Arcanist);
    assert_eq!(t.ability, Ability::SingleDamage(3));
    assert_eq!(t.penalties, vec![Penalty::IncreasedDamage]);
    assert_eq!(t.max_countdown, 1);
    assert_eq!(t.start_countdown, 1);
    assert_eq!(t.max_health, 3);
}

#[test]
fn catalog_entry_of_general() {
    let t = Class::General.get_type();
    assert_eq!(t.class, Class::General);
    assert_eq!(t.ability, Ability::AoeReduce(1));
    assert_eq!(t.penalties, vec![Penalty::IncreasedHealth, Penalty::IncreasedAmount]);
    assert_eq!(t.max_countdown, 4);
    assert_eq!(t.start_countdown, 4);
    assert_eq!(t.max_health, 19);
}

#[test]
fn catalog_abilities() {
    let expected = [
        Ability::SingleDamage(3),
        Ability::SingleHeal(2),
        Ability::SingleDamage(2),
        Ability::SingleReduce(1),
        Ability::AoeDamage(2),
        Ability::SingleHeal(1),
        Ability::SingleDamage(5),
        Ability::SingleReduce(3),
        Ability::Summon(Class::Warrior),
        Ability::SingleHeal(1),
        Ability::AoeOverheal(1),
        Ability::Stall(3),
        Ability::AoeDamage(1),
        Ability::AoeHeal(3),
        Ability::InstantKill,
        Ability::AoeReduce(1),
    ];
    for (class, ability) in ALL.iter().zip(expected.iter()) {
        assert_eq!(class.get_type().ability, *ability);
    }
}

#[test]
fn catalog_base_stats() {
    // (max_countdown, start_countdown, max_health) in catalog order
    let expected = [
        (1, 1, 3),
        (3, 3, 8),
        (2, 1, 10),
        (1, 1, 5),
        (3, 3, 5),
        (1, 1, 6),
        (1, 1, 4),
        (4, 3, 8),
        (5, 5, 6),
        (2, 2, 7),
        (2, 2, 12),
        (3, 3, 6),
        (5, 1, 15),
        (3, 2, 18),
        (7, 7, 20),
        (4, 4, 19),
    ];
    for (class, stats) in ALL.iter().zip(expected.iter()) {
        let t = class.get_type();
        assert_eq!((t.max_countdown, t.start_countdown, t.max_health), *stats);
        assert_eq!(t.class, *class);
    }
}

#[test]
fn every_class_starts_at_or_below_its_maximum_countdown() {
    for class in ALL.iter() {
        let t = class.get_type();
        assert!(t.start_countdown <= t.max_countdown);
        let m = t.get_minion();
        assert!(m.countdown <= m.max_countdown);
        assert_eq!(m.countdown, t.start_countdown);
        assert_eq!(m.max_countdown, t.max_countdown);
    }
}

#[test]
fn catalog_penalties_of_the_top_tier() {
    assert_eq!(
        Class::Archmage.get_type().penalties,
        vec![Penalty::IncreasedDamage, Penalty::ReducedCountdown]
    );
    assert_eq!(
        Class::Pope.get_type().penalties,
        vec![Penalty::IncreasedAmount, Penalty::IncreasedHealth]
    );
    assert_eq!(
        Class::Invincible.get_type().penalties,
        vec![Penalty::ReducedCountdown, Penalty::IncreasedDamage]
    );
}

#[test]
fn fresh_minion_has_full_health_and_start_countdown() {
    let m = Class::Tactician.get_type().get_minion();
    assert_eq!(
        m,
        Minion { class: Class::Tactician, health: 8, max_health: 8, countdown: 3, max_countdown: 4 }
    );
}

#[test]
fn sprite_names() {
    assert_eq!(Class::Arcanist.get_sprite(), "hood.png");
    assert_eq!(Class::Tactician.get_sprite(), "warlord-helmet.png");
    assert_eq!(Class::General.get_sprite(), "elf-helmet.png");
    for class in ALL.iter() {
        assert!(class.get_sprite().ends_with(".png"));
    }
}
