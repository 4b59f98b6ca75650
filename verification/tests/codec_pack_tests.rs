use combat_arena::codec::{decode_move, encode_move};
use combat_arena::combat::init_champion_state;
use combat_arena::pack::{pack_champion_state, unpack_champion_state, GOLDILOCKS_P};
use combat_arena::types::{BuffSlot, StatType, TurnAction};

#[test]
fn roundtrip_all_valid_moves() {
    for champ_id in 0..=7u8 {
        for ability_idx in 0..=1u8 {
            let action = TurnAction {
                champion_id: champ_id,
                ability_index: ability_idx,
            };
            let encoded = encode_move(&action);
            assert!(encoded >= 1 && encoded <= 16);
            let decoded = decode_move(encoded);
            assert_eq!(decoded.champion_id, champ_id);
            assert_eq!(decoded.ability_index, ability_idx);
        }
    }
}

#[test]
fn specific_encode_values() {
    // (0,0) -> 1
    assert_eq!(
        encode_move(&TurnAction { champion_id: 0, ability_index: 0 }),
        1
    );
    // (0,1) -> 2
    assert_eq!(
        encode_move(&TurnAction { champion_id: 0, ability_index: 1 }),
        2
    );
    // (7,1) -> 16
    assert_eq!(
        encode_move(&TurnAction { champion_id: 7, ability_index: 1 }),
        16
    );
}

#[test]
fn roundtrip_fresh_champion() {
    for id in 0..8u8 {
        let state = init_champion_state(id);
        let packed = pack_champion_state(&state);
        let unpacked = unpack_champion_state(packed, id);

        assert_eq!(unpacked.id, state.id);
        assert_eq!(unpacked.current_hp, state.current_hp);
        assert_eq!(unpacked.max_hp, state.max_hp);
        assert_eq!(unpacked.is_ko, state.is_ko);
        assert_eq!(unpacked.buff_count, state.buff_count);
    }
}

#[test]
fn roundtrip_with_buffs_and_damage() {
    let mut state = init_champion_state(0); // Inferno, HP 80
    state.current_hp = 45;
    state.buffs[0] = BuffSlot {
        stat: StatType::Defense,
        value: 6,
        turns_remaining: 2,
        is_debuff: false,
        active: true,
    };
    state.buffs[1] = BuffSlot {
        stat: StatType::Attack,
        value: 4,
        turns_remaining: 1,
        is_debuff: true,
        active: true,
    };
    state.buffs[2] = BuffSlot {
        stat: StatType::Speed,
        value: 5,
        turns_remaining: 3,
        is_debuff: false,
        active: true,
    };
    state.buff_count = 3;

    let packed = pack_champion_state(&state);
    let unpacked = unpack_champion_state(packed, 0);

    assert_eq!(unpacked.current_hp, 45);
    assert_eq!(unpacked.max_hp, 80);
    assert_eq!(unpacked.buff_count, 3);
    assert!(!unpacked.is_ko);

    // Check buff 0
    assert!(unpacked.buffs[0].active);
    assert_eq!(unpacked.buffs[0].stat, StatType::Defense);
    assert_eq!(unpacked.buffs[0].value, 6);
    assert_eq!(unpacked.buffs[0].turns_remaining, 2);
    assert!(!unpacked.buffs[0].is_debuff);

    // Check buff 1 (debuff)
    assert!(unpacked.buffs[1].active);
    assert_eq!(unpacked.buffs[1].stat, StatType::Attack);
    assert_eq!(unpacked.buffs[1].value, 4);
    assert_eq!(unpacked.buffs[1].turns_remaining, 1);
    assert!(unpacked.buffs[1].is_debuff);

    // Check buff 2
    assert!(unpacked.buffs[2].active);
    assert_eq!(unpacked.buffs[2].stat, StatType::Speed);
    assert_eq!(unpacked.buffs[2].value, 5);
    assert_eq!(unpacked.buffs[2].turns_remaining, 3);
    assert!(!unpacked.buffs[2].is_debuff);

    // Inactive slots should be empty
    assert!(!unpacked.buffs[3].active);
}

#[test]
fn roundtrip_ko_champion() {
    let mut state = init_champion_state(7); // Storm, HP 85
    state.current_hp = 0;
    state.is_ko = true;

    let packed = pack_champion_state(&state);
    let unpacked = unpack_champion_state(packed, 7);

    assert_eq!(unpacked.current_hp, 0);
    assert!(unpacked.is_ko);
    assert_eq!(unpacked.max_hp, 85);
}

#[test]
fn all_8_champions_roundtrip() {
    for id in 0..8u8 {
        let state = init_champion_state(id);
        let packed = pack_champion_state(&state);
        let unpacked = unpack_champion_state(packed, id);

        assert_eq!(unpacked.id, id);
        assert_eq!(unpacked.current_hp, state.current_hp);
        assert_eq!(unpacked.max_hp, state.max_hp);
    }
}

#[test]
fn buff_count_recomputed_correctly() {
    let mut state = init_champion_state(3);
    // Set 3 active buffs in various slots
    for i in [0, 1, 3] {
        state.buffs[i] = BuffSlot {
            stat: StatType::Defense,
            value: 3,
            turns_remaining: 1,
            is_debuff: false,
            active: true,
        };
    }
    state.buff_count = 3;

    let packed = pack_champion_state(&state);
    let unpacked = unpack_champion_state(packed, 3);
    assert_eq!(unpacked.buff_count, 3);
}

#[test]
fn max_buff_values_roundtrip() {
    let mut state = init_champion_state(0);
    // Max representable: value=63, turns=15
    state.buffs[0] = BuffSlot {
        stat: StatType::Attack,
        value: 63,
        turns_remaining: 15,
        is_debuff: true,
        active: true,
    };
    state.buff_count = 1;

    let packed = pack_champion_state(&state);
    let unpacked = unpack_champion_state(packed, 0);
    assert_eq!(unpacked.buffs[0].value, 63);
    assert_eq!(unpacked.buffs[0].turns_remaining, 15);
    assert!(unpacked.buffs[0].is_debuff);
    assert_eq!(unpacked.buffs[0].stat, StatType::Attack);
}

#[test]
fn packed_words_stay_below_field_ceiling() {
    for id in 0..8u8 {
        let mut state = init_champion_state(id);
        state.buffs[0] = BuffSlot {
            stat: StatType::Attack,
            value: 63,
            turns_remaining: 15,
            is_debuff: true,
            active: true,
        };
        state.buffs[1] = BuffSlot {
            stat: StatType::Speed,
            value: 63,
            turns_remaining: 15,
            is_debuff: false,
            active: true,
        };
        state.buff_count = 2;
        let packed = pack_champion_state(&state);
        for w in packed {
            assert!(w < GOLDILOCKS_P);
        }
    }
}
