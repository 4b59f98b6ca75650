use combat_arena::combat::{init_champion_state, is_team_eliminated, resolve_turn};
use combat_arena::champions::get_champion;
use combat_arena::types::{
    BuffSlot, ChampionState, StatType, TurnAction, TurnEvent, TurnResult, MAX_BUFFS,
};

fn find_event<F>(result: &TurnResult, pred: F) -> Option<TurnEvent>
where
    F: Fn(&TurnEvent) -> bool,
{
    for i in 0..result.event_count as usize {
        if pred(&result.events[i]) {
            return Some(result.events[i]);
        }
    }
    None
}

fn count_events<F>(result: &TurnResult, pred: F) -> usize
where
    F: Fn(&TurnEvent) -> bool,
{
    let mut count = 0;
    for i in 0..result.event_count as usize {
        if pred(&result.events[i]) {
            count += 1;
        }
    }
    count
}

#[test]
fn buff_slot_empty_has_expected_defaults() {
    let slot = BuffSlot::empty();
    assert!(!slot.active);
    assert_eq!(slot.value, 0);
    assert_eq!(slot.turns_remaining, 0);
    assert!(!slot.is_debuff);
}

#[test]
fn champion_state_initialization_roundtrip() {
    let state = ChampionState {
        id: 5,
        current_hp: 100,
        max_hp: 100,
        buffs: [BuffSlot::empty(); MAX_BUFFS],
        buff_count: 0,
        burn_turns: 0,
        is_ko: false,
        total_damage_dealt: 0,
    };
    assert_eq!(state.id, 5);
    assert_eq!(state.current_hp, 100);
    assert_eq!(state.max_hp, 100);
    assert_eq!(state.buff_count, 0);
    assert!(!state.is_ko);
    for i in 0..MAX_BUFFS {
        assert!(!state.buffs[i].active);
    }
}

#[test]
fn all_champions_load() {
    for i in 0..8u8 {
        let c = get_champion(i);
        assert_eq!(c.id, i);
        assert!(c.hp > 0);
    }
}

#[test]
fn inferno_stats() {
    let c = get_champion(0);
    assert_eq!(c.hp, 80);
    assert_eq!(c.attack, 20);
    assert_eq!(c.defense, 5);
    assert_eq!(c.speed, 16);
    assert_eq!(c.element, combat_arena::types::Element::Fire);
}

#[test]
fn init_champion_state_all() {
    for i in 0..8u8 {
        let state = init_champion_state(i);
        assert_eq!(state.id, i);
        assert_eq!(state.current_hp, state.max_hp);
        assert!(state.current_hp > 0);
        assert!(!state.is_ko);
        assert_eq!(state.buff_count, 0);
        assert_eq!(state.burn_turns, 0);
    }
}

#[test]
fn is_team_eliminated_false_when_alive() {
    let team = [
        init_champion_state(0),
        init_champion_state(1),
        init_champion_state(2),
    ];
    assert!(!is_team_eliminated(&team));
}

#[test]
fn is_team_eliminated_true_when_all_ko() {
    let mut team = [
        init_champion_state(0),
        init_champion_state(1),
        init_champion_state(2),
    ];
    for s in team.iter_mut() {
        s.is_ko = true;
        s.current_hp = 0;
    }
    assert!(is_team_eliminated(&team));
}

#[test]
fn is_team_eliminated_false_when_some_alive() {
    let mut team = [
        init_champion_state(0),
        init_champion_state(1),
        init_champion_state(2),
    ];
    team[0].is_ko = true;
    team[0].current_hp = 0;
    assert!(!is_team_eliminated(&team));
}

#[test]
fn faster_champion_attacks_first() {
    // Gale (id 4, SPD 18) vs Boulder (id 1, SPD 5)
    let gale = init_champion_state(4);
    let boulder = init_champion_state(1);

    let result = resolve_turn(
        &gale,
        &boulder,
        &TurnAction { champion_id: 4, ability_index: 0 }, // Wind Blade
        &TurnAction { champion_id: 1, ability_index: 0 }, // Rock Slam
    );

    // First attack event should be from Gale
    let first_attack = find_event(&result, |e| matches!(e, TurnEvent::Attack { .. }));
    assert!(first_attack.is_some());
    if let Some(TurnEvent::Attack { attacker_id, .. }) = first_attack {
        assert_eq!(attacker_id, 4);
    }
}

#[test]
fn speed_tie_broken_by_lower_id() {
    // Same champion (id 0) on both sides — tie broken deterministically
    let a = init_champion_state(0);
    let b = init_champion_state(0);

    let result = resolve_turn(
        &a,
        &b,
        &TurnAction { champion_id: 0, ability_index: 0 },
        &TurnAction { champion_id: 0, ability_index: 0 },
    );

    let attack_count = count_events(&result, |e| matches!(e, TurnEvent::Attack { .. }));
    assert!(attack_count >= 1);
}

#[test]
fn speed_tie_side_a_acts_first() {
    // Identical champion on both sides: side A's action resolves first.
    let a = init_champion_state(0);
    let b = init_champion_state(0);

    let result = resolve_turn(
        &a,
        &b,
        &TurnAction { champion_id: 0, ability_index: 0 },
        &TurnAction { champion_id: 0, ability_index: 0 },
    );

    // The first attack targets side B, so side B's hit points dropped first;
    // both sides end up hit, and the log opens with side A's attack.
    assert!(result.event_count >= 1);
    assert!(matches!(result.events[0], TurnEvent::Attack { .. }));
    assert!(result.state_b.current_hp < result.state_b.max_hp);
}

#[test]
fn resolve_turn_deterministic() {
    let tide = init_champion_state(5);
    let storm = init_champion_state(7);
    let action_a = TurnAction { champion_id: 5, ability_index: 1 };
    let action_b = TurnAction { champion_id: 7, ability_index: 0 };

    let r1 = resolve_turn(&tide, &storm, &action_a, &action_b);
    let r2 = resolve_turn(&tide, &storm, &action_a, &action_b);
    assert_eq!(r1, r2);
}

#[test]
fn heal_mechanics() {
    // Torrent (id 3, Water) heals self
    let mut torrent = init_champion_state(3);
    torrent.current_hp = 50; // damage them
    let ember = init_champion_state(2);

    let result = resolve_turn(
        &torrent,
        &ember,
        &TurnAction { champion_id: 3, ability_index: 1 }, // Heal (+25 HP)
        &TurnAction { champion_id: 2, ability_index: 0 }, // Fireball
    );

    // Torrent should have valid HP
    assert!(result.state_a.current_hp <= result.state_a.max_hp);
}

#[test]
fn buff_application_and_tick_down() {
    // Ember (id 2, SPD 14) uses Flame Shield (+5 DEF, 2 turns)
    // Torrent (id 3, SPD 10) uses Tidal Wave
    let ember = init_champion_state(2);
    let torrent = init_champion_state(3);

    let result = resolve_turn(
        &ember,
        &torrent,
        &TurnAction { champion_id: 2, ability_index: 1 }, // Flame Shield
        &TurnAction { champion_id: 3, ability_index: 0 }, // Tidal Wave
    );

    // Buff event should exist
    let buff_event = find_event(&result, |e| matches!(e, TurnEvent::Buff { .. }));
    assert!(buff_event.is_some());

    // Ember should have 1 active buff with 1 turn remaining (applied at 2, ticked to 1)
    let ember_state = &result.state_a;
    let mut active_buffs = 0;
    for i in 0..MAX_BUFFS {
        if ember_state.buffs[i].active {
            active_buffs += 1;
            assert_eq!(ember_state.buffs[i].stat, StatType::Defense);
            assert_eq!(ember_state.buffs[i].value, 5);
            assert_eq!(ember_state.buffs[i].turns_remaining, 1);
        }
    }
    assert_eq!(active_buffs, 1);
}

#[test]
fn burn_application_and_tick() {
    // Inferno (id 0, SPD 16) uses Scorch (burn 3 turns) vs Boulder (id 1, SPD 5)
    let inferno = init_champion_state(0);
    let boulder = init_champion_state(1);

    let result = resolve_turn(
        &inferno,
        &boulder,
        &TurnAction { champion_id: 0, ability_index: 1 }, // Scorch
        &TurnAction { champion_id: 1, ability_index: 0 }, // Rock Slam
    );

    let burn_applied = find_event(&result, |e| matches!(e, TurnEvent::BurnApplied { .. }));
    let burn_tick = find_event(&result, |e| matches!(e, TurnEvent::BurnTick { .. }));

    assert!(burn_applied.is_some());
    assert!(burn_tick.is_some());

    // Boulder should have 2 burn turns left (3 applied, 1 ticked)
    assert_eq!(result.state_b.burn_turns, 2);
}

#[test]
fn ko_prevents_second_attack() {
    // Storm (id 7, SPD 15) vs Boulder (id 1, SPD 5) with 1 HP left:
    // Storm acts first and the knockout cancels Boulder's action.
    let storm = init_champion_state(7);
    let mut boulder = init_champion_state(1);
    boulder.current_hp = 1; // Very low HP

    let result = resolve_turn(
        &storm,
        &boulder,
        &TurnAction { champion_id: 7, ability_index: 0 }, // Lightning
        &TurnAction { champion_id: 1, ability_index: 0 }, // Rock Slam
    );

    let ko = find_event(&result, |e| matches!(e, TurnEvent::Ko { .. }));
    assert!(ko.is_some());

    // Boulder should be KO'd
    assert!(result.state_b.is_ko);

    // Only 1 attack should have happened (Storm's)
    let attacks = count_events(&result, |e| matches!(e, TurnEvent::Attack { .. }));
    assert_eq!(attacks, 1);
}

#[test]
fn debuff_applied_to_opponent() {
    // Tide (id 5, SPD 9) uses Mist (-4 ATK, 2 turns) on Inferno (id 0, SPD 16)
    // Inferno is faster, so Inferno acts first, then Tide applies debuff
    let tide = init_champion_state(5);
    let inferno = init_champion_state(0);

    let result = resolve_turn(
        &tide,
        &inferno,
        &TurnAction { champion_id: 5, ability_index: 1 }, // Mist
        &TurnAction { champion_id: 0, ability_index: 0 }, // Eruption
    );

    let debuff_event = find_event(&result, |e| matches!(e, TurnEvent::Debuff { .. }));
    assert!(debuff_event.is_some());

    // Inferno (state_b) should have an attack debuff
    // After tick_buffs, duration goes from 2 to 1
    let inferno_state = &result.state_b;
    let mut found_debuff = false;
    for i in 0..MAX_BUFFS {
        if inferno_state.buffs[i].active
            && inferno_state.buffs[i].stat == StatType::Attack
            && inferno_state.buffs[i].is_debuff
        {
            found_debuff = true;
        }
    }
    assert!(found_debuff);
}

// ---------------------------------------------------------------
// Full happy-path: 3v3 battle played to completion
// ---------------------------------------------------------------
// We simulate a complete match where each team sends one champion
// at a time, chain resolve_turn calls, swap in the next champion
// when one is KO'd, and run until one team is fully eliminated.
#[test]
fn full_3v3_battle_to_completion() {
    let mut team_a = [
        init_champion_state(7), // Storm:   Wind, HP 85, ATK 17, SPD 15
        init_champion_state(2), // Ember:   Fire, HP 90, ATK 16, SPD 14
        init_champion_state(3), // Torrent: Water, HP 110, ATK 12, SPD 10
    ];
    let mut team_b = [
        init_champion_state(1), // Boulder: Earth, HP 140, ATK 14, SPD 5
        init_champion_state(5), // Tide:    Water, HP 100, ATK 11, SPD 9
        init_champion_state(4), // Gale:    Wind, HP 75, ATK 15, SPD 18
    ];

    let mut idx_a: usize = 0; // active champion index for team A
    let mut idx_b: usize = 0; // active champion index for team B

    let mut rounds = 0u32;
    let max_rounds = 100; // safety cap

    while rounds < max_rounds {
        rounds += 1;

        let active_a = &team_a[idx_a];
        let active_b = &team_b[idx_b];

        // Pick actions — mostly ability 0 (damage), with some ability 1 to
        // exercise buffs, heals and debuffs.
        let ability_a = if rounds == 3 && active_a.id == 2 {
            1 // Ember: Flame Shield (buff)
        } else {
            0
        };
        let ability_b = if rounds == 1 && active_b.id == 1 {
            1 // Boulder: Fortify (buff)
        } else if active_b.id == 5 && rounds % 3 == 0 {
            1 // Tide: Mist (debuff) every 3rd round
        } else {
            0
        };

        let action_a = TurnAction {
            champion_id: active_a.id,
            ability_index: ability_a,
        };
        let action_b = TurnAction {
            champion_id: active_b.id,
            ability_index: ability_b,
        };

        let result = resolve_turn(&team_a[idx_a], &team_b[idx_b], &action_a, &action_b);

        // Write back updated states
        team_a[idx_a] = result.state_a;
        team_b[idx_b] = result.state_b;

        // Basic invariants every round
        assert!(result.event_count > 0, "round {} produced no events", rounds);
        assert!(
            team_a[idx_a].current_hp <= team_a[idx_a].max_hp,
            "HP exceeded max for team A champion {}",
            team_a[idx_a].id
        );
        assert!(
            team_b[idx_b].current_hp <= team_b[idx_b].max_hp,
            "HP exceeded max for team B champion {}",
            team_b[idx_b].id
        );

        // If a champion is KO'd, swap in the next one
        if team_a[idx_a].is_ko && idx_a + 1 < team_a.len() {
            idx_a += 1;
        }
        if team_b[idx_b].is_ko && idx_b + 1 < team_b.len() {
            idx_b += 1;
        }

        // Check for full team elimination
        if is_team_eliminated(&team_a) || is_team_eliminated(&team_b) {
            break;
        }
    }

    // The battle must have ended (not hit the safety cap)
    assert!(
        is_team_eliminated(&team_a) || is_team_eliminated(&team_b),
        "battle did not end within {} rounds",
        max_rounds
    );

    // Exactly one team should be eliminated
    let a_elim = is_team_eliminated(&team_a);
    let b_elim = is_team_eliminated(&team_b);
    assert!(a_elim || b_elim, "no team was eliminated");

    // The winning team should have at least one champion alive
    if a_elim {
        assert!(
            team_b.iter().any(|s| !s.is_ko),
            "team B won but has no survivors"
        );
    } else {
        assert!(
            team_a.iter().any(|s| !s.is_ko),
            "team A won but has no survivors"
        );
    }

    // Verify total_damage_dealt is sensible across all champions
    let total_dmg: u32 = team_a
        .iter()
        .chain(team_b.iter())
        .map(|s| s.total_damage_dealt)
        .sum();
    assert!(total_dmg > 0, "no damage was dealt in the entire battle");
}

// A simpler 1v1 that chains rounds until KO, verifying HP
// monotonically decreases (no healing used) and the battle
// terminates deterministically.
#[test]
fn full_1v1_damage_only_to_ko() {
    // Storm (Wind, SPD 15) vs Quake (Earth, SPD 7) — both use ability 0 (damage)
    let mut storm = init_champion_state(7); // HP 85
    let mut quake = init_champion_state(6); // HP 130

    let mut rounds = 0u32;
    let mut prev_hp_storm = storm.current_hp;
    let mut prev_hp_quake = quake.current_hp;

    while !storm.is_ko && !quake.is_ko {
        rounds += 1;
        assert!(rounds <= 50, "1v1 did not end in 50 rounds");

        let result = resolve_turn(
            &storm,
            &quake,
            &TurnAction { champion_id: 7, ability_index: 0 }, // Lightning
            &TurnAction { champion_id: 6, ability_index: 0 }, // Earthquake
        );

        storm = result.state_a;
        quake = result.state_b;

        // HP should only decrease (no heals in this fight)
        assert!(
            storm.current_hp <= prev_hp_storm,
            "storm HP increased: {} -> {}",
            prev_hp_storm,
            storm.current_hp
        );
        assert!(
            quake.current_hp <= prev_hp_quake,
            "quake HP increased: {} -> {}",
            prev_hp_quake,
            quake.current_hp
        );

        prev_hp_storm = storm.current_hp;
        prev_hp_quake = quake.current_hp;
    }

    // Exactly one should be KO'd
    assert!(storm.is_ko || quake.is_ko);
    assert!(rounds > 1, "battle should take more than 1 round");
}

// Inferno's Scorch applies burn — verify burn ticks accumulate
// across multiple rounds and eventually KO the target.
#[test]
fn multi_round_burn_kills() {
    // Inferno (Fire, SPD 16) uses Scorch (ability 1: 15 power + 3-turn burn)
    // vs Boulder (Earth, SPD 5) who uses Fortify (buff) every round.
    let mut inferno = init_champion_state(0);
    let mut boulder = init_champion_state(1); // HP 140

    let mut rounds = 0u32;
    let mut burn_tick_total = 0u32;

    while !boulder.is_ko && rounds < 30 {
        rounds += 1;

        // Inferno always uses Scorch (re-applies burn), Boulder always Fortifies
        let result = resolve_turn(
            &inferno,
            &boulder,
            &TurnAction { champion_id: 0, ability_index: 1 }, // Scorch
            &TurnAction { champion_id: 1, ability_index: 1 }, // Fortify
        );

        // Count burn tick events this round
        for i in 0..result.event_count as usize {
            if let TurnEvent::BurnTick { damage, .. } = result.events[i] {
                burn_tick_total += damage;
            }
        }

        inferno = result.state_a;
        boulder = result.state_b;
    }

    assert!(boulder.is_ko, "Boulder should be KO'd by burn + damage");
    assert!(burn_tick_total > 0, "burn should have dealt tick damage");
    assert!(rounds > 1, "should take multiple rounds");
}
