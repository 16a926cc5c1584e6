//! The draft generator: three class choices, weighted by the power budget.

use crate::catalog::Class;
use crate::dice::sample_below;
use rand::rngs::StdRng;
use vstd::prelude::*;

verus! {

/// The largest budget that the tier roll looks at.
pub const BUDGET_CAP: usize = 16;

/// The budget as the tier roll sees it.
pub open spec fn capped_budget(power: int) -> int {
    if power <= BUDGET_CAP {
        power
    } else {
        BUDGET_CAP as int
    }
}

/// The tier that a roll falls into.
pub open spec fn tier_of(roll: int) -> int {
    if roll <= 4 {
        0
    } else if roll <= 8 {
        1
    } else if roll <= 12 {
        2
    } else {
        3
    }
}

/// The class at each of the four places of each tier.
pub open spec fn class_at(tier: int, place: int) -> Class {
    if tier == 0 {
        if place == 0 {
            Class::Arcanist
        } else if place == 1 {
            Class::Cleric
        } else if place == 2 {
            Class::Warrior
        } else {
            Class::Scout
        }
    } else if tier == 1 {
        if place == 0 {
            Class::Pyromancer
        } else if place == 1 {
            Class::Priest
        } else if place == 2 {
            Class::Rogue
        } else {
            Class::Tactician
        }
    } else if tier == 2 {
        if place == 0 {
            Class::Necromancer
        } else if place == 1 {
            Class::Oracle
        } else if place == 2 {
            Class::Bulwark
        } else {
            Class::Sage
        }
    } else {
        if place == 0 {
            Class::Archmage
        } else if place == 1 {
            Class::Pope
        } else if place == 2 {
            Class::Invincible
        } else {
            Class::General
        }
    }
}

/// Whether a draft with the given budget can offer the class: some tier
/// roll below the capped budget and some place lead to it.
pub open spec fn offered(power: int, class: Class) -> bool {
    exists|roll: int, place: int|
        0 <= roll < capped_budget(power) && 0 <= place < 4 && class == class_at(
            tier_of(roll),
            place,
        )
}

/// The class that a tier roll and a place roll lead to.
pub fn class_for(roll: usize, place: usize) -> (class: Class)
    requires
        place < 4,
    ensures
        class == class_at(tier_of(roll as int), place as int),
{
    if roll <= 4 {
        if place == 0 {
            Class::Arcanist
        } else if place == 1 {
            Class::Cleric
        } else if place == 2 {
            Class::Warrior
        } else {
            Class::Scout
        }
    } else if roll <= 8 {
        if place == 0 {
            Class::Pyromancer
        } else if place == 1 {
            Class::Priest
        } else if place == 2 {
            Class::Rogue
        } else {
            Class::Tactician
        }
    } else if roll <= 12 {
        if place == 0 {
            Class::Necromancer
        } else if place == 1 {
            Class::Oracle
        } else if place == 2 {
            Class::Bulwark
        } else {
            Class::Sage
        }
    } else {
        if place == 0 {
            Class::Archmage
        } else if place == 1 {
            Class::Pope
        } else if place == 2 {
            Class::Invincible
        } else {
            Class::General
        }
    }
}

/// Draws one class: a tier roll below the capped budget, then one of the
/// four places of that tier.
pub fn generate_class(power: usize, rng: &mut StdRng) -> (class: Class)
    requires
        power >= 1,
    ensures
        offered(power as int, class),
{
    let budget = if power <= BUDGET_CAP {
        power
    } else {
        BUDGET_CAP
    };
    let roll = sample_below(rng, budget);
    let place = sample_below(rng, 4);
    let class = class_for(roll, place);
    proof {
        assert(0 <= roll < capped_budget(power as int) && 0 <= place < 4 && class == class_at(
            tier_of(roll as int),
            place as int,
        ));
    }
    class
}

/// Draws the three choices of a draft, each on its own.
pub fn spawn_draft_cards(power: usize, rng: &mut StdRng) -> (choices: [Class; 3])
    requires
        power >= 1,
    ensures
        forall|i: int| 0 <= i < 3 ==> offered(power as int, #[trigger] choices@[i]),
{
    let first = generate_class(power, rng);
    let second = generate_class(power, rng);
    let third = generate_class(power, rng);
    [first, second, third]
}

} // verus!
