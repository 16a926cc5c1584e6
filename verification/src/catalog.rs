//! The class catalog: the sixteen unit archetypes and their base data.

use vstd::prelude::*;

verus! {

/// A tag on a class that makes enemy waves harder as the unit earns bounty.
#[derive(Clone, Copy, Debug, PartialEq, Eq, Structural)]
pub enum Penalty {
    IncreasedHealth,
    IncreasedDamage,
    IncreasedAmount,
    ReducedCountdown,
}

/// What a unit does when its countdown runs out.
#[derive(Clone, Copy, Debug, PartialEq, Eq, Structural)]
pub enum Ability {
    /// Damages one army picked at random.
    SingleDamage(usize),
    /// Damages every army.
    AoeDamage(usize),
    /// Queues a heal for one minion picked at random.
    SingleHeal(usize),
    /// Queues a heal for every minion.
    AoeHeal(usize),
    /// Queues a heal for every minion that may pass the maximum.
    AoeOverheal(usize),
    /// Queues a countdown reduction for one minion picked at random.
    SingleReduce(usize),
    /// Queues a countdown reduction for every minion.
    AoeReduce(usize),
    /// Puts a fresh minion of the given class on the field.
    Summon(Class),
    /// Adds to the countdown of one army picked at random.
    Stall(usize),
    /// Removes one army picked at random, whatever its health.
    InstantKill,
}

/// A unit archetype.
#[derive(Clone, Copy, Debug, PartialEq, Eq, Structural)]
pub enum Class {
    Arcanist,
    Cleric,
    Warrior,
    Scout,
    Pyromancer,
    Priest,
    Rogue,
    Tactician,
    Necromancer,
    Bulwark,
    Oracle,
    Sage,
    Archmage,
    Pope,
    Invincible,
    General,
}

/// The catalog's record of one class.
pub struct MinionType {
    pub class: Class,
    pub ability: Ability,
    pub penalties: Vec<Penalty>,
    pub max_countdown: usize,
    pub start_countdown: usize,
    pub max_health: usize,
}

/// The mathematical content of a [`MinionType`].
#[verifier::ext_equal]
pub struct Definition {
    pub class: Class,
    pub ability: Ability,
    pub penalties: Seq<Penalty>,
    pub max_countdown: usize,
    pub start_countdown: usize,
    pub max_health: usize,
}

impl View for MinionType {
    type V = Definition;

    open spec fn view(&self) -> Definition {
        Definition {
            class: self.class,
            ability: self.ability,
            penalties: self.penalties@,
            max_countdown: self.max_countdown,
            start_countdown: self.start_countdown,
            max_health: self.max_health,
        }
    }
}

/// A unit on the field, fighting for the player.
#[derive(Clone, Copy, Debug, PartialEq, Eq, Structural)]
pub struct Minion {
    pub class: Class,
    pub health: usize,
    pub max_health: usize,
    pub countdown: usize,
    pub max_countdown: usize,
}

impl Class {
    /// The ability of each class.
    pub open spec fn ability(self) -> Ability {
        match self {
            Class::Arcanist => Ability::SingleDamage(3),
            Class::Cleric => Ability::SingleHeal(2),
            Class::Warrior => Ability::SingleDamage(2),
            Class::Scout => Ability::SingleReduce(1),
            Class::Pyromancer => Ability::AoeDamage(2),
            Class::Priest => Ability::SingleHeal(1),
            Class::Rogue => Ability::SingleDamage(5),
            Class::Tactician => Ability::SingleReduce(3),
            Class::Necromancer => Ability::Summon(Class::Warrior),
            Class::Oracle => Ability::SingleHeal(1),
            Class::Bulwark => Ability::AoeOverheal(1),
            Class::Sage => Ability::Stall(3),
            Class::Archmage => Ability::AoeDamage(1),
            Class::Pope => Ability::AoeHeal(3),
            Class::Invincible => Ability::InstantKill,
            Class::General => Ability::AoeReduce(1),
        }
    }

    /// The reward-penalty tags of each class, in catalog order.
    pub open spec fn penalties(self) -> Seq<Penalty> {
        match self {
            Class::Arcanist => seq![Penalty::IncreasedDamage],
            Class::Cleric => seq![Penalty::IncreasedHealth],
            Class::Warrior => seq![Penalty::IncreasedAmount],
            Class::Scout => seq![Penalty::ReducedCountdown],
            Class::Pyromancer => seq![Penalty::IncreasedAmount],
            Class::Priest => seq![Penalty::IncreasedHealth],
            Class::Rogue => seq![Penalty::IncreasedDamage],
            Class::Tactician => seq![Penalty::ReducedCountdown],
            Class::Necromancer => seq![Penalty::IncreasedHealth],
            Class::Oracle => seq![Penalty::IncreasedAmount],
            Class::Bulwark => seq![Penalty::ReducedCountdown],
            Class::Sage => seq![Penalty::IncreasedDamage],
            Class::Archmage => seq![Penalty::IncreasedDamage, Penalty::ReducedCountdown],
            Class::Pope => seq![Penalty::IncreasedAmount, Penalty::IncreasedHealth],
            Class::Invincible => seq![Penalty::ReducedCountdown, Penalty::IncreasedDamage],
            Class::General => seq![Penalty::IncreasedHealth, Penalty::IncreasedAmount],
        }
    }

    /// Ticks between two actions of a unit of each class.
    pub open spec fn max_countdown(self) -> usize {
        match self {
            Class::Arcanist => 1,
            Class::Cleric => 3,
            Class::Warrior => 2,
            Class::Scout => 1,
            Class::Pyromancer => 3,
            Class::Priest => 1,
            Class::Rogue => 1,
            Class::Tactician => 4,
            Class::Necromancer => 5,
            Class::Oracle => 2,
            Class::Bulwark => 2,
            Class::Sage => 3,
            Class::Archmage => 5,
            Class::Pope => 3,
            Class::Invincible => 7,
            Class::General => 4,
        }
    }

    /// Ticks before the first action of a freshly spawned unit of each
    /// class. No class starts above the ticks between two of its actions.
    pub open spec fn start_countdown(self) -> usize {
        match self {
            Class::Arcanist => 1,
            Class::Cleric => 3,
            Class::Warrior => 1,
            Class::Scout => 1,
            Class::Pyromancer => 3,
            Class::Priest => 1,
            Class::Rogue => 1,
            Class::Tactician => 3,
            Class::Necromancer => 5,
            Class::Oracle => 2,
            Class::Bulwark => 2,
            Class::Sage => 3,
            Class::Archmage => 1,
            Class::Pope => 2,
            Class::Invincible => 7,
            Class::General => 4,
        }
    }

    /// Health of a freshly spawned unit of each class.
    pub open spec fn max_health(self) -> usize {
        match self {
            Class::Arcanist => 3,
            Class::Cleric => 8,
            Class::Warrior => 10,
            Class::Scout => 5,
            Class::Pyromancer => 5,
            Class::Priest => 6,
            Class::Rogue => 4,
            Class::Tactician => 8,
            Class::Necromancer => 6,
            Class::Oracle => 7,
            Class::Bulwark => 12,
            Class::Sage => 6,
            Class::Archmage => 15,
            Class::Pope => 18,
            Class::Invincible => 20,
            Class::General => 19,
        }
    }

    /// The catalog entry of a class.
    pub open spec fn definition(self) -> Definition {
        Definition {
            class: self,
            ability: self.ability(),
            penalties: self.penalties(),
            max_countdown: self.max_countdown(),
            start_countdown: self.start_countdown(),
            max_health: self.max_health(),
        }
    }

    /// A unit of this class as it enters the field.
    pub open spec fn fresh(self) -> Minion {
        Minion {
            class: self,
            health: self.max_health(),
            max_health: self.max_health(),
            countdown: self.start_countdown(),
            max_countdown: self.max_countdown(),
        }
    }

    /// Looks the class up in the catalog.
    pub fn get_type(&self) -> (t: MinionType)
        ensures
            t@ == self.definition(),
            t.start_countdown <= t.max_countdown,
    {
        match self {
            Class::Arcanist => MinionType {
                class: Class::Arcanist,
                ability: Ability::SingleDamage(3),
                penalties: vec![Penalty::IncreasedDamage],
                max_countdown: 1,
                start_countdown: 1,
                max_health: 3,
            },
            Class::Cleric => MinionType {
                class: Class::Cleric,
                ability: Ability::SingleHeal(2),
                penalties: vec![Penalty::IncreasedHealth],
                max_countdown: 3,
                start_countdown: 3,
                max_health: 8,
            },
            Class::Warrior => MinionType {
                class: Class::Warrior,
                ability: Ability::SingleDamage(2),
                penalties: vec![Penalty::IncreasedAmount],
                max_countdown: 2,
                start_countdown: 1,
                max_health: 10,
            },
            Class::Scout => MinionType {
                class: Class::Scout,
                ability: Ability::SingleReduce(1),
                penalties: vec![Penalty::ReducedCountdown],
                max_countdown: 1,
                start_countdown: 1,
                max_health: 5,
            },
            Class::Pyromancer => MinionType {
                class: Class::Pyromancer,
                ability: Ability::AoeDamage(2),
                penalties: vec![Penalty::IncreasedAmount],
                max_countdown: 3,
                start_countdown: 3,
                max_health: 5,
            },
            Class::Priest => MinionType {
                class: Class::Priest,
                ability: Ability::SingleHeal(1),
                penalties: vec![Penalty::IncreasedHealth],
                max_countdown: 1,
                start_countdown: 1,
                max_health: 6,
            },
            Class::Rogue => MinionType {
                class: Class::Rogue,
                ability: Ability::SingleDamage(5),
                penalties: vec![Penalty::IncreasedDamage],
                max_countdown: 1,
                start_countdown: 1,
                max_health: 4,
            },
            Class::Tactician => MinionType {
                class: Class::Tactician,
                ability: Ability::SingleReduce(3),
                penalties: vec![Penalty::ReducedCountdown],
                max_countdown: 4,
                start_countdown: 3,
                max_health: 8,
            },
            Class::Necromancer => MinionType {
                class: Class::Necromancer,
                ability: Ability::Summon(Class::Warrior),
                penalties: vec![Penalty::IncreasedHealth],
                max_countdown: 5,
                start_countdown: 5,
                max_health: 6,
            },
            Class::Oracle => MinionType {
                class: Class::Oracle,
                ability: Ability::SingleHeal(1),
                penalties: vec![Penalty::IncreasedAmount],
                max_countdown: 2,
                start_countdown: 2,
                max_health: 7,
            },
            Class::Bulwark => MinionType {
                class: Class::Bulwark,
                ability: Ability::AoeOverheal(1),
                penalties: vec![Penalty::ReducedCountdown],
                max_countdown: 2,
                start_countdown: 2,
                max_health: 12,
            },
            Class::Sage => MinionType {
                class: Class::Sage,
                ability: Ability::Stall(3),
                penalties: vec![Penalty::IncreasedDamage],
                max_countdown: 3,
                start_countdown: 3,
                max_health: 6,
            },
            Class::Archmage => MinionType {
                class: Class::Archmage,
                ability: Ability::AoeDamage(1),
                penalties: vec![Penalty::IncreasedDamage, Penalty::ReducedCountdown],
                max_countdown: 5,
                start_countdown: 1,
                max_health: 15,
            },
            Class::Pope => MinionType {
                class: Class::Pope,
                ability: Ability::AoeHeal(3),
                penalties: vec![Penalty::IncreasedAmount, Penalty::IncreasedHealth],
                max_countdown: 3,
                start_countdown: 2,
                max_health: 18,
            },
            Class::Invincible => MinionType {
                class: Class::Invincible,
                ability: Ability::InstantKill,
                penalties: vec![Penalty::ReducedCountdown, Penalty::IncreasedDamage],
                max_countdown: 7,
                start_countdown: 7,
                max_health: 20,
            },
            Class::General => MinionType {
                class: Class::General,
                ability: Ability::AoeReduce(1),
                penalties: vec![Penalty::IncreasedHealth, Penalty::IncreasedAmount],
                max_countdown: 4,
                start_countdown: 4,
                max_health: 19,
            },
        }
    }

    /// The image file that shows a unit of each class.
    pub open spec fn sprite(self) -> Seq<char> {
        match self {
            Class::Arcanist => "hood.png"@,
            Class::Cleric => "hedjet-white-crown.png"@,
            Class::Warrior => "light-helm.png"@,
            Class::Scout => "robin-hood-hat.png"@,
            Class::Pyromancer => "pyromaniac.png"@,
            Class::Priest => "spiked-halo.png"@,
            Class::Rogue => "cowled.png"@,
            Class::Tactician => "warlord-helmet.png"@,
            Class::Necromancer => "crowned-skull.png"@,
            Class::Oracle => "alien-stare.png"@,
            Class::Bulwark => "frog-mouth-helm.png"@,
            Class::Sage => "graduate-cap.png"@,
            Class::Archmage => "crown.png"@,
            Class::Pope => "pope-crown.png"@,
            Class::Invincible => "black-knight-helm.png"@,
            Class::General => "elf-helmet.png"@,
        }
    }

    /// Names the image file that shows a unit of this class.
    pub fn get_sprite(&self) -> (name: &'static str)
        ensures
            name@ == self.sprite(),
    {
        match self {
            Class::Arcanist => "hood.png",
            Class::Cleric => "hedjet-white-crown.png",
            Class::Warrior => "light-helm.png",
            Class::Scout => "robin-hood-hat.png",
            Class::Pyromancer => "pyromaniac.png",
            Class::Priest => "spiked-halo.png",
            Class::Rogue => "cowled.png",
            Class::Tactician => "warlord-helmet.png",
            Class::Necromancer => "crowned-skull.png",
            Class::Oracle => "alien-stare.png",
            Class::Bulwark => "frog-mouth-helm.png",
            Class::Sage => "graduate-cap.png",
            Class::Archmage => "crown.png",
            Class::Pope => "pope-crown.png",
            Class::Invincible => "black-knight-helm.png",
            Class::General => "elf-helmet.png",
        }
    }
}

impl MinionType {
    /// A fresh unit of this type: full health, countdown at its start value.
    pub fn get_minion(&self) -> (m: Minion)
        ensures
            m == (Minion {
                class: self.class,
                health: self.max_health,
                max_health: self.max_health,
                countdown: self.start_countdown,
                max_countdown: self.max_countdown,
            }),
            self@ == self.class.definition() ==> m == self.class.fresh(),
    {
        Minion {
            class: self.class,
            health: self.max_health,
            max_health: self.max_health,
            countdown: self.start_countdown,
            max_countdown: self.max_countdown,
        }
    }
}

} // verus!
