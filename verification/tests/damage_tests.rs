use combat_arena::champions::get_champion;
use combat_arena::combat::init_champion_state;
use combat_arena::damage::{calculate_burn_damage, calculate_damage};
use combat_arena::elements::get_type_multiplier;
use combat_arena::types::{Ability, AbilityType, BuffSlot, ChampionState, Element, StatType};

fn make_state(champion_id: u8) -> ChampionState {
    init_champion_state(champion_id)
}

#[test]
fn ember_vs_boulder_fire_advantage() {
    let ember = get_champion(2); // Fire, ATK 16
    let boulder = get_champion(1); // Earth, DEF 16
    let boulder_state = make_state(1);
    let ember_state = make_state(2);
    let ability = &ember.abilities[0]; // Fireball: 25 power

    let (damage, mult) = calculate_damage(&ember, &boulder, &boulder_state, ability, &ember_state);

    // baseDamage = 25 * (20 + 16) * 150 / 2000 = 25 * 36 * 150 / 2000 = 135000 / 2000 = 67
    // finalDamage = 67 - 16 = 51
    assert_eq!(mult, 150);
    assert_eq!(damage, 51);
}

#[test]
fn ember_vs_torrent_fire_disadvantage() {
    let ember = get_champion(2); // Fire
    let torrent = get_champion(3); // Water, DEF 12
    let torrent_state = make_state(3);
    let ember_state = make_state(2);
    let ability = &ember.abilities[0]; // Fireball: 25 power

    let (damage, mult) = calculate_damage(&ember, &torrent, &torrent_state, ability, &ember_state);

    // 25 * 36 * 67 / 2000 = 60300 / 2000 = 30
    // 30 - 12 = 18
    assert_eq!(mult, 67);
    assert_eq!(damage, 18);
}

#[test]
fn ember_vs_gale_neutral() {
    let ember = get_champion(2); // Fire
    let gale = get_champion(4); // Wind
    let gale_state = make_state(4);
    let ember_state = make_state(2);
    let ability = &ember.abilities[0];

    let (_, mult) = calculate_damage(&ember, &gale, &gale_state, ability, &ember_state);
    assert_eq!(mult, 100);
}

#[test]
fn respects_defense_buffs() {
    let ember = get_champion(2);
    let boulder = get_champion(1);
    let mut boulder_state = make_state(1);
    let ember_state = make_state(2);

    // Add +6 DEF buff
    boulder_state.buffs[0] = BuffSlot {
        stat: StatType::Defense,
        value: 6,
        turns_remaining: 2,
        is_debuff: false,
        active: true,
    };
    boulder_state.buff_count = 1;

    let ability = &ember.abilities[0];
    let (damage, _) = calculate_damage(&ember, &boulder, &boulder_state, ability, &ember_state);

    // effective_def = 16 + 6 = 22
    // raw = 25 * 36 * 150 / 2000 = 67
    // 67 - 22 = 45
    assert_eq!(damage, 45);
}

#[test]
fn respects_attack_debuffs() {
    let ember = get_champion(2); // ATK 16
    let boulder = get_champion(1); // DEF 16
    let boulder_state = make_state(1);
    let mut ember_state = make_state(2);

    // Add -4 ATK debuff on attacker
    ember_state.buffs[0] = BuffSlot {
        stat: StatType::Attack,
        value: 4,
        turns_remaining: 2,
        is_debuff: true,
        active: true,
    };
    ember_state.buff_count = 1;

    let ability = &ember.abilities[0];
    let (damage, _) = calculate_damage(&ember, &boulder, &boulder_state, ability, &ember_state);

    // effective_atk = max(0, 16 - 4) = 12
    // raw = 25 * (20 + 12) * 150 / 2000 = 25 * 32 * 150 / 2000 = 120000 / 2000 = 60
    // 60 - 16 = 44
    assert_eq!(damage, 44);
}

#[test]
fn minimum_1_damage() {
    let gale = get_champion(4); // ATK 15
    let ember = get_champion(2); // DEF 8
    let mut ember_state = make_state(2);
    let gale_state = make_state(4);

    // Give massive defense buff (largest magnitude the layout can hold)
    ember_state.buffs[0] = BuffSlot {
        stat: StatType::Defense,
        value: 63,
        turns_remaining: 1,
        is_debuff: false,
        active: true,
    };
    ember_state.buff_count = 1;

    // Use a low-power ability (construct one)
    let weak_ability = Ability {
        power: 1,
        ability_type: AbilityType::Damage,
        stat: StatType::Defense,
        stat_value: 0,
        duration: 0,
        heal_amount: 0,
        applies_burn: false,
    };

    let (damage, _) = calculate_damage(&gale, &ember, &ember_state, &weak_ability, &gale_state);
    assert_eq!(damage, 1);
}

#[test]
fn burn_damage_90hp() {
    let state = make_state(2); // Ember: 90 HP
    assert_eq!(calculate_burn_damage(&state), 9);
}

#[test]
fn burn_damage_min_1() {
    let mut state = make_state(0);
    state.max_hp = 5;
    assert_eq!(calculate_burn_damage(&state), 1);
}

#[test]
fn all_matchups_produce_at_least_1_damage() {
    for i in 0..8u8 {
        for j in 0..8u8 {
            let attacker = get_champion(i);
            let defender = get_champion(j);
            let def_state = make_state(j);
            let atk_state = make_state(i);

            for ability in &attacker.abilities {
                match ability.ability_type {
                    AbilityType::Damage | AbilityType::DamageDot => {
                        let (damage, _) =
                            calculate_damage(&attacker, &defender, &def_state, ability, &atk_state);
                        assert!(damage >= 1, "champion {} vs {} produced 0 damage", i, j);
                    }
                    _ => {}
                }
            }
        }
    }
}

#[test]
fn all_16_element_pairs() {
    // Same element = 100
    assert_eq!(get_type_multiplier(Element::Fire, Element::Fire), 100);
    assert_eq!(get_type_multiplier(Element::Water, Element::Water), 100);
    assert_eq!(get_type_multiplier(Element::Earth, Element::Earth), 100);
    assert_eq!(get_type_multiplier(Element::Wind, Element::Wind), 100);

    // Advantages = 150
    assert_eq!(get_type_multiplier(Element::Fire, Element::Earth), 150);
    assert_eq!(get_type_multiplier(Element::Earth, Element::Wind), 150);
    assert_eq!(get_type_multiplier(Element::Wind, Element::Water), 150);
    assert_eq!(get_type_multiplier(Element::Water, Element::Fire), 150);

    // Disadvantages = 67
    assert_eq!(get_type_multiplier(Element::Earth, Element::Fire), 67);
    assert_eq!(get_type_multiplier(Element::Wind, Element::Earth), 67);
    assert_eq!(get_type_multiplier(Element::Water, Element::Wind), 67);
    assert_eq!(get_type_multiplier(Element::Fire, Element::Water), 67);

    // Neutral (non-adjacent in cycle) = 100
    assert_eq!(get_type_multiplier(Element::Fire, Element::Wind), 100);
    assert_eq!(get_type_multiplier(Element::Wind, Element::Fire), 100);
    assert_eq!(get_type_multiplier(Element::Water, Element::Earth), 100);
    assert_eq!(get_type_multiplier(Element::Earth, Element::Water), 100);
}
