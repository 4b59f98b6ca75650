//! The static champion catalog: eight champions, each with two abilities.

use vstd::prelude::*;
use crate::types::{Ability, AbilityType, Champion, ChampionView, Element, StatType};
use crate::types::{BUFF_TURNS_MAX, BUFF_VALUE_MAX, HP_CAP, STAT_CAP};

verus! {

/// Number of champions in the catalog. Move encoding and team validation are
/// built around this count.
pub const N_CHAMPIONS: u8 = 8;

/// A plain damage ability of the given power.
pub open spec fn spec_damage_ability(power: u32) -> Ability {
    Ability {
        power,
        ability_type: AbilityType::Damage,
        stat: StatType::Defense,
        stat_value: 0,
        duration: 0,
        heal_amount: 0,
        applies_burn: false,
    }
}

/// A damage-over-time ability: an immediate hit of the given power that also
/// sets the target burning for `duration` rounds.
pub open spec fn spec_burn_ability(power: u32, duration: u32) -> Ability {
    Ability {
        power,
        ability_type: AbilityType::DamageDot,
        stat: StatType::Defense,
        stat_value: 0,
        duration,
        heal_amount: 0,
        applies_burn: true,
    }
}

/// A self heal of the given amount.
pub open spec fn spec_heal_ability(amount: u32) -> Ability {
    Ability {
        power: 0,
        ability_type: AbilityType::Heal,
        stat: StatType::Defense,
        stat_value: 0,
        duration: 0,
        heal_amount: amount,
        applies_burn: false,
    }
}

/// A buff on the actor's own stat.
pub open spec fn spec_buff_ability(stat: StatType, value: u32, duration: u32) -> Ability {
    Ability {
        power: 0,
        ability_type: AbilityType::Buff,
        stat,
        stat_value: value,
        duration,
        heal_amount: 0,
        applies_burn: false,
    }
}

/// A debuff on the opposing combatant's stat.
pub open spec fn spec_debuff_ability(stat: StatType, value: u32, duration: u32) -> Ability {
    Ability {
        power: 0,
        ability_type: AbilityType::Debuff,
        stat,
        stat_value: value,
        duration,
        heal_amount: 0,
        applies_burn: false,
    }
}

/// The catalog entry for champion `id`.
pub open spec fn spec_champion(id: int) -> ChampionView {
    if id == 0 {
        // Inferno: Fire
        ChampionView {
            id: 0, hp: 80, attack: 20, defense: 5, speed: 16, element: Element::Fire,
            abilities: seq![spec_damage_ability(35), spec_burn_ability(15, 3)],
        }
    } else if id == 1 {
        // Boulder: Earth
        ChampionView {
            id: 1, hp: 140, attack: 14, defense: 16, speed: 5, element: Element::Earth,
            abilities: seq![
                spec_damage_ability(28),
                spec_buff_ability(StatType::Defense, 6, 2),
            ],
        }
    } else if id == 2 {
        // Ember: Fire
        ChampionView {
            id: 2, hp: 90, attack: 16, defense: 8, speed: 14, element: Element::Fire,
            abilities: seq![
                spec_damage_ability(25),
                spec_buff_ability(StatType::Defense, 5, 2),
            ],
        }
    } else if id == 3 {
        // Torrent: Water
        ChampionView {
            id: 3, hp: 110, attack: 12, defense: 12, speed: 10, element: Element::Water,
            abilities: seq![spec_damage_ability(22), spec_heal_ability(25)],
        }
    } else if id == 4 {
        // Gale: Wind
        ChampionView {
            id: 4, hp: 75, attack: 15, defense: 6, speed: 18, element: Element::Wind,
            abilities: seq![
                spec_damage_ability(24),
                spec_buff_ability(StatType::Speed, 5, 2),
            ],
        }
    } else if id == 5 {
        // Tide: Water
        ChampionView {
            id: 5, hp: 100, attack: 11, defense: 14, speed: 9, element: Element::Water,
            abilities: seq![
                spec_damage_ability(20),
                spec_debuff_ability(StatType::Attack, 4, 2),
            ],
        }
    } else if id == 6 {
        // Quake: Earth
        ChampionView {
            id: 6, hp: 130, attack: 13, defense: 15, speed: 7, element: Element::Earth,
            abilities: seq![
                spec_damage_ability(26),
                spec_buff_ability(StatType::Defense, 8, 1),
            ],
        }
    } else {
        // Storm: Wind
        ChampionView {
            id: 7, hp: 85, attack: 17, defense: 7, speed: 15, element: Element::Wind,
            abilities: seq![
                spec_damage_ability(30),
                spec_buff_ability(StatType::Speed, 6, 2),
            ],
        }
    }
}

/// An ability whose numeric fields fit both the damage arithmetic and the
/// packed buff layout.
pub open spec fn ability_wf(a: Ability) -> bool {
    &&& a.power <= STAT_CAP
    &&& a.stat_value <= BUFF_VALUE_MAX
    &&& a.duration <= BUFF_TURNS_MAX
    &&& a.heal_amount <= STAT_CAP
}

/// A champion whose stats fit the damage arithmetic and whose two abilities
/// are well formed.
pub open spec fn champion_wf(c: ChampionView) -> bool {
    &&& 0 <= c.id < N_CHAMPIONS as int
    &&& 1 <= c.hp <= HP_CAP as int
    &&& c.attack <= STAT_CAP as int
    &&& c.defense <= STAT_CAP as int
    &&& c.speed <= STAT_CAP as int
    &&& c.abilities.len() == 2
    &&& ability_wf(c.abilities[0])
    &&& ability_wf(c.abilities[1])
}

/// Every catalog entry is well formed and carries its own id.
pub proof fn lemma_catalog_wf(id: int)
    requires
        0 <= id < N_CHAMPIONS as int,
    ensures
        champion_wf(spec_champion(id)),
        spec_champion(id).id == id,
{
    assert(champion_wf(spec_champion(id))) by {
        reveal(spec_champion);
    }
}

fn exec_damage_ability(power: u32) -> (r: Ability)
    ensures
        r == spec_damage_ability(power),
{
    Ability {
        power,
        ability_type: AbilityType::Damage,
        stat: StatType::Defense,
        stat_value: 0,
        duration: 0,
        heal_amount: 0,
        applies_burn: false,
    }
}

fn exec_burn_ability(power: u32, duration: u32) -> (r: Ability)
    ensures
        r == spec_burn_ability(power, duration),
{
    Ability {
        power,
        ability_type: AbilityType::DamageDot,
        stat: StatType::Defense,
        stat_value: 0,
        duration,
        heal_amount: 0,
        applies_burn: true,
    }
}

fn exec_heal_ability(amount: u32) -> (r: Ability)
    ensures
        r == spec_heal_ability(amount),
{
    Ability {
        power: 0,
        ability_type: AbilityType::Heal,
        stat: StatType::Defense,
        stat_value: 0,
        duration: 0,
        heal_amount: amount,
        applies_burn: false,
    }
}

fn exec_buff_ability(stat: StatType, value: u32, duration: u32) -> (r: Ability)
    ensures
        r == spec_buff_ability(stat, value, duration),
{
    Ability {
        power: 0,
        ability_type: AbilityType::Buff,
        stat,
        stat_value: value,
        duration,
        heal_amount: 0,
        applies_burn: false,
    }
}

fn exec_debuff_ability(stat: StatType, value: u32, duration: u32) -> (r: Ability)
    ensures
        r == spec_debuff_ability(stat, value, duration),
{
    Ability {
        power: 0,
        ability_type: AbilityType::Debuff,
        stat,
        stat_value: value,
        duration,
        heal_amount: 0,
        applies_burn: false,
    }
}

/// Look up a champion in the catalog by id.
pub fn get_champion(id: u8) -> (c: Champion)
    requires
        id < N_CHAMPIONS,
    ensures
        c@ == spec_champion(id as int),
        champion_wf(c@),
        c.id == id,
{
    proof {
        lemma_catalog_wf(id as int);
    }
    let c = if id == 0 {
        Champion {
            id: 0, hp: 80, attack: 20, defense: 5, speed: 16, element: Element::Fire,
            abilities: [exec_damage_ability(35), exec_burn_ability(15, 3)],
        }
    } else if id == 1 {
        Champion {
            id: 1, hp: 140, attack: 14, defense: 16, speed: 5, element: Element::Earth,
            abilities: [exec_damage_ability(28), exec_buff_ability(StatType::Defense, 6, 2)],
        }
    } else if id == 2 {
        Champion {
            id: 2, hp: 90, attack: 16, defense: 8, speed: 14, element: Element::Fire,
            abilities: [exec_damage_ability(25), exec_buff_ability(StatType::Defense, 5, 2)],
        }
    } else if id == 3 {
        Champion {
            id: 3, hp: 110, attack: 12, defense: 12, speed: 10, element: Element::Water,
            abilities: [exec_damage_ability(22), exec_heal_ability(25)],
        }
    } else if id == 4 {
        Champion {
            id: 4, hp: 75, attack: 15, defense: 6, speed: 18, element: Element::Wind,
            abilities: [exec_damage_ability(24), exec_buff_ability(StatType::Speed, 5, 2)],
        }
    } else if id == 5 {
        Champion {
            id: 5, hp: 100, attack: 11, defense: 14, speed: 9, element: Element::Water,
            abilities: [exec_damage_ability(20), exec_debuff_ability(StatType::Attack, 4, 2)],
        }
    } else if id == 6 {
        Champion {
            id: 6, hp: 130, attack: 13, defense: 15, speed: 7, element: Element::Earth,
            abilities: [exec_damage_ability(26), exec_buff_ability(StatType::Defense, 8, 1)],
        }
    } else {
        Champion {
            id: 7, hp: 85, attack: 17, defense: 7, speed: 15, element: Element::Wind,
            abilities: [exec_damage_ability(30), exec_buff_ability(StatType::Speed, 6, 2)],
        }
    };
    assert(c@.abilities =~= spec_champion(id as int).abilities);
    c
}

} // verus!
