//! Fixed-width binary codec for combatant state.
//!
//! A [`ChampionState`] is persisted as four 64-bit words, each kept below the
//! storage field ceiling [`GOLDILOCKS_P`]:
//!   word 0: current_hp in the high 32 bits, max_hp in the low 32;
//!   word 1: the knockout flag in bit 32;
//!   word 2: the first four buff slots, 16 bits each, slot 0 highest
//!           (per slot: stat 2 bits, debuff flag 1, magnitude 6, turns 4,
//!           active flag 1, 2 reserved zero bits);
//!   word 3: reserved, zero.
//! The champion id and the cached buff count are not packed: the id comes from
//! the caller's team table, and the count is recomputed from the active slots
//! on unpack. Burn turns and the damage tally are not persisted either.

use vstd::prelude::*;
use crate::types::{
    BuffSlot, ChampionState, ChampionStateView, StatType, count_active, count_active_prefix,
    spec_empty_buff, state_wf, MAX_BUFFS,
};

verus! {

/// The storage field ceiling: every packed word must stay below this prime.
pub const GOLDILOCKS_P: u64 = 0xFFFF_FFFF_0000_0001;

/// Two-bit code of a stat.
pub open spec fn spec_stat_code(stat: StatType) -> u16 {
    match stat {
        StatType::Defense => 0u16,
        StatType::Speed => 1u16,
        StatType::Attack => 2u16,
    }
}

/// Packed 16-bit form of one buff slot; inactive slots pack to zero.
pub open spec fn spec_pack_buff(b: BuffSlot) -> u16 {
    if !b.active {
        0u16
    } else {
        (spec_stat_code(b.stat) << 14) | ((if b.is_debuff { 1u16 } else { 0u16 }) << 13)
            | (((b.value as u16) & 0x3F) << 7) | (((b.turns_remaining as u16) & 0x0F) << 3)
            | (1u16 << 2)
    }
}

/// Buff slot encoded by 16 bits. The active flag is bit 2; a stat code of 3 is
/// never written and decodes arbitrarily to Defense.
pub open spec fn spec_unpack_buff(bits: u16) -> BuffSlot {
    if (bits >> 2) & 1 != 1 {
        spec_empty_buff()
    } else {
        BuffSlot {
            stat: if (bits >> 14) & 3 == 0 {
                StatType::Defense
            } else if (bits >> 14) & 3 == 1 {
                StatType::Speed
            } else {
                StatType::Attack
            },
            is_debuff: (bits >> 13) & 1 == 1,
            value: ((bits >> 7) & 0x3F) as u32,
            turns_remaining: ((bits >> 3) & 0x0F) as u32,
            active: true,
        }
    }
}

/// The four packed words of a combatant state.
pub open spec fn spec_pack_state(s: ChampionState) -> Seq<u64> {
    let w0 = ((s.current_hp as u64) << 32) | (s.max_hp as u64);
    let w1 = (if s.is_ko { 1u64 } else { 0u64 }) << 32;
    let w2 = ((spec_pack_buff(s.buffs@[0]) as u64) << 48)
        | ((spec_pack_buff(s.buffs@[1]) as u64) << 32)
        | ((spec_pack_buff(s.buffs@[2]) as u64) << 16)
        | (spec_pack_buff(s.buffs@[3]) as u64);
    seq![w0, w1, w2, 0u64]
}

/// The 16-bit chunk of word 2 that holds slot `i` (slot 0 sits highest).
pub open spec fn spec_word2_chunk(w2: u64, i: int) -> u16 {
    ((w2 >> (((3 - i) * 16) as u64)) & 0xFFFF) as u16
}

/// Whether an encoded slot chunk is decodable: an active slot must not carry
/// the unused stat code 3.
pub open spec fn spec_chunk_valid(bits: u16) -> bool {
    (bits >> 2) & 1 == 1 ==> (bits >> 14) & 3 != 3
}

/// Whether all four slot chunks of word 2 are decodable.
pub open spec fn spec_word2_valid(w2: u64) -> bool {
    forall|i: int| 0 <= i < 4 ==> spec_chunk_valid(#[trigger] spec_word2_chunk(w2, i))
}

/// State encoded by four words and a caller-supplied champion id: hit points
/// from word 0, the knockout flag from word 1, the first four buff slots from
/// word 2, empty remaining slots, a recomputed buff count, and cleared burn
/// and damage counters.
pub open spec fn spec_unpack_state(w: Seq<u64>, champion_id: u8) -> ChampionStateView {
    let buffs = seq![
        spec_unpack_buff(spec_word2_chunk(w[2], 0)),
        spec_unpack_buff(spec_word2_chunk(w[2], 1)),
        spec_unpack_buff(spec_word2_chunk(w[2], 2)),
        spec_unpack_buff(spec_word2_chunk(w[2], 3)),
        spec_empty_buff(),
        spec_empty_buff(),
        spec_empty_buff(),
        spec_empty_buff(),
    ];
    ChampionStateView {
        id: champion_id as int,
        current_hp: (w[0] >> 32) as int,
        max_hp: (w[0] & 0xFFFF_FFFF) as int,
        buffs: buffs,
        buff_count: count_active(buffs),
        burn_turns: 0,
        is_ko: (w[1] >> 32) & 1 == 1,
        total_damage_dealt: 0,
    }
}

/// Pack a single buff slot into 16 bits.
fn pack_single_buff(buff: &BuffSlot) -> (r: u16)
    requires
        crate::types::buff_wf(*buff),
    ensures
        r == spec_pack_buff(*buff),
        r <= 0xFFFC,
        spec_chunk_valid(r),
{
    if !buff.active {
        assert((0u16 >> 2) & 1 == 0) by (bit_vector);
        return 0;
    }
    let stat_bits: u16 = match buff.stat {
        StatType::Defense => 0,
        StatType::Speed => 1,
        StatType::Attack => 2,
    };
    let debuff_bit: u16 = if buff.is_debuff {
        1
    } else {
        0
    };
    let value_bits = (buff.value as u16) & 0x3F;
    let turns_bits = (buff.turns_remaining as u16) & 0x0F;
    proof {
        let vv = buff.value as u16;
        let tt = buff.turns_remaining as u16;
        assert(vv & 0x3F <= 0x3F && tt & 0x0F <= 0x0F) by (bit_vector);
    }
    let r = (stat_bits << 14) | (debuff_bit << 13) | (value_bits << 7) | (turns_bits << 3) | (1u16
        << 2);
    assert(r <= 0xFFFC && (r >> 2) & 1 == 1 && (r >> 14) & 3 == stat_bits) by (bit_vector)
        requires
            stat_bits <= 2,
            debuff_bit <= 1,
            value_bits <= 0x3F,
            turns_bits <= 0x0F,
            r == (stat_bits << 14) | (debuff_bit << 13) | (value_bits << 7) | (turns_bits << 3) | (
            1u16 << 2),
    ;
    r
}

/// Unpack a single buff slot from 16 bits.
fn unpack_single_buff(bits: u16) -> (r: BuffSlot)
    requires
        spec_chunk_valid(bits),
    ensures
        r == spec_unpack_buff(bits),
{
    let active = ((bits >> 2) & 1) == 1;
    if !active {
        return BuffSlot::empty();
    }
    let code = (bits >> 14) & 3;
    assert(code <= 3) by (bit_vector)
        requires
            code == (bits >> 14) & 3,
    ;
    let stat = if code == 0 {
        StatType::Defense
    } else if code == 1 {
        StatType::Speed
    } else if code == 2 {
        StatType::Attack
    } else {
        proof {
            assert(false);
        }
        StatType::Defense
    };
    BuffSlot {
        stat,
        is_debuff: ((bits >> 13) & 1) == 1,
        value: ((bits >> 7) & 0x3F) as u32,
        turns_remaining: ((bits >> 3) & 0x0F) as u32,
        active: true,
    }
}

/// Pack a combatant state into four words, each below the storage ceiling.
/// Only the first four of the eight buff slots are persisted.
pub fn pack_champion_state(state: &ChampionState) -> (r: [u64; 4])
    requires
        state_wf(state@),
    ensures
        r@ == spec_pack_state(*state),
        forall|i: int| 0 <= i < 4 ==> #[trigger] r@[i] < GOLDILOCKS_P,
        spec_word2_valid(r@[2]),
{
    let felt0 = ((state.current_hp as u64) << 32) | (state.max_hp as u64);
    let felt1 = (if state.is_ko { 1u64 } else { 0u64 }) << 32;

    let p0 = pack_single_buff(&state.buffs[0]);
    let p1 = pack_single_buff(&state.buffs[1]);
    let p2 = pack_single_buff(&state.buffs[2]);
    let p3 = pack_single_buff(&state.buffs[3]);
    let felt2 = ((p0 as u64) << 48) | ((p1 as u64) << 32) | ((p2 as u64) << 16) | (p3 as u64);

    proof {
        let hp = state.current_hp as u64;
        let max = state.max_hp as u64;
        assert((hp << 32) | max == hp * 0x1_0000_0000 + max) by (bit_vector)
            requires
                hp < 0x1_0000_0000,
                max < 0x1_0000_0000,
        ;
        assert((1u64 << 32) < GOLDILOCKS_P) by (bit_vector);
        assert((0u64 << 32) < GOLDILOCKS_P) by (bit_vector);
        let c0 = p0 as u64;
        let c1 = p1 as u64;
        let c2 = p2 as u64;
        let c3 = p3 as u64;
        assert((c0 << 48) | (c1 << 32) | (c2 << 16) | c3 <= 0xFFFC_FFFF_FFFF_FFFF) by (bit_vector)
            requires
                c0 <= 0xFFFC,
                c1 <= 0xFFFF,
                c2 <= 0xFFFF,
                c3 <= 0xFFFF,
        ;
        assert(spec_word2_chunk(felt2, 0) == p0 && spec_word2_chunk(felt2, 1) == p1
            && spec_word2_chunk(felt2, 2) == p2 && spec_word2_chunk(felt2, 3) == p3) by {
            assert(((felt2 >> 48) & 0xFFFF) == c0 && ((felt2 >> 32) & 0xFFFF) == c1 && ((felt2
                >> 16) & 0xFFFF) == c2 && ((felt2 >> 0) & 0xFFFF) == c3) by (bit_vector)
                requires
                    c0 <= 0xFFFF,
                    c1 <= 0xFFFF,
                    c2 <= 0xFFFF,
                    c3 <= 0xFFFF,
                    felt2 == (c0 << 48) | (c1 << 32) | (c2 << 16) | c3,
            ;
        }
    }

    let r = [felt0, felt1, felt2, 0u64];
    assert(r@ =~= spec_pack_state(*state));
    r
}

/// Unpack a combatant state from four words. The champion id is supplied by
/// the caller (it is recovered from the team table), and the buff count is
/// recomputed by counting the active unpacked slots.
pub fn unpack_champion_state(word: [u64; 4], champion_id: u8) -> (r: ChampionState)
    requires
        spec_word2_valid(word@[2]),
    ensures
        r@ == spec_unpack_state(word@, champion_id),
{
    let current_hp = (word[0] >> 32) as u32;
    let max_hp = (word[0] & 0xFFFF_FFFF) as u32;
    let is_ko = ((word[1] >> 32) & 1) == 1;

    proof {
        let w0 = word@[0];
        assert((w0 >> 32) < 0x1_0000_0000 && (w0 & 0xFFFF_FFFF) < 0x1_0000_0000) by (bit_vector);
        let w2 = word@[2];
        assert(((w2 >> 0) & 0xFFFF) == w2 & 0xFFFF) by (bit_vector);
        assert(spec_word2_chunk(w2, 0) == ((w2 >> 48) & 0xFFFF) as u16
            && spec_word2_chunk(w2, 1) == ((w2 >> 32) & 0xFFFF) as u16
            && spec_word2_chunk(w2, 2) == ((w2 >> 16) & 0xFFFF) as u16
            && spec_word2_chunk(w2, 3) == ((w2 >> 0) & 0xFFFF) as u16);
    }

    let b0 = unpack_single_buff(((word[2] >> 48) & 0xFFFF) as u16);
    let b1 = unpack_single_buff(((word[2] >> 32) & 0xFFFF) as u16);
    let b2 = unpack_single_buff(((word[2] >> 16) & 0xFFFF) as u16);
    let b3 = unpack_single_buff((word[2] & 0xFFFF) as u16);
    let e = BuffSlot::empty();
    let buffs = [b0, b1, b2, b3, e, e, e, e];

    let mut buff_count: u8 = 0;
    if b0.active {
        buff_count += 1;
    }
    if b1.active {
        buff_count += 1;
    }
    if b2.active {
        buff_count += 1;
    }
    if b3.active {
        buff_count += 1;
    }

    let r = ChampionState {
        id: champion_id,
        current_hp,
        max_hp,
        buffs,
        buff_count,
        burn_turns: 0,
        is_ko,
        total_damage_dealt: 0,
    };
    proof {
        let s = spec_unpack_state(word@, champion_id);
        assert(r@.buffs =~= s.buffs);
        reveal_with_fuel(count_active_prefix, 9);
        assert(r@ =~= s);
    }
    r
}

/// Round-trip law: packing a well-formed state and unpacking the words with
/// the same champion id reproduces the hit points, the knockout flag, and the
/// first four buff slots exactly (a persisted inactive slot comes back as the
/// cleared slot), with the buff count recomputed as the number of active slots
/// among them. Burn turns and the damage tally are not persisted and come
/// back cleared.
pub proof fn lemma_pack_unpack_roundtrip(s: ChampionState, champion_id: u8)
    requires
        state_wf(s@),
    ensures
        ({
            let u = spec_unpack_state(spec_pack_state(s), champion_id);
            &&& u.id == champion_id as int
            &&& u.current_hp == s.current_hp as int
            &&& u.max_hp == s.max_hp as int
            &&& u.is_ko == s.is_ko
            &&& (forall|i: int| 0 <= i < 4 ==> u.buffs[i] == (if s.buffs@[i].active {
                s.buffs@[i]
            } else {
                spec_empty_buff()
            }))
            &&& (forall|i: int| 4 <= i < MAX_BUFFS ==> u.buffs[i] == spec_empty_buff())
            &&& u.buff_count == count_active_prefix(s.buffs@, 4)
            &&& u.burn_turns == 0
            &&& u.total_damage_dealt == 0
        }),
{
    let w = spec_pack_state(s);
    let u = spec_unpack_state(w, champion_id);
    let hp = s.current_hp as u64;
    let max = s.max_hp as u64;
    let w0 = w[0];
    assert(((hp << 32) | max) >> 32 == hp && ((hp << 32) | max) & 0xFFFF_FFFF == max)
        by (bit_vector)
        requires
            hp < 0x1_0000_0000,
            max < 0x1_0000_0000,
    ;
    assert((((1u64 << 32) >> 32) & 1 == 1) && (((0u64 << 32) >> 32) & 1 == 0)) by (bit_vector);

    let c0 = spec_pack_buff(s.buffs@[0]) as u64;
    let c1 = spec_pack_buff(s.buffs@[1]) as u64;
    let c2 = spec_pack_buff(s.buffs@[2]) as u64;
    let c3 = spec_pack_buff(s.buffs@[3]) as u64;
    lemma_pack_buff_le(s.buffs@[0]);
    lemma_pack_buff_le(s.buffs@[1]);
    lemma_pack_buff_le(s.buffs@[2]);
    lemma_pack_buff_le(s.buffs@[3]);
    let w2 = w[2];
    assert(((w2 >> 48) & 0xFFFF) == c0 && ((w2 >> 32) & 0xFFFF) == c1 && ((w2 >> 16) & 0xFFFF)
        == c2 && ((w2 >> 0) & 0xFFFF) == c3) by (bit_vector)
        requires
            c0 <= 0xFFFF,
            c1 <= 0xFFFF,
            c2 <= 0xFFFF,
            c3 <= 0xFFFF,
            w2 == (c0 << 48) | (c1 << 32) | (c2 << 16) | c3,
    ;
    assert forall|i: int| 0 <= i < 4 implies u.buffs[i] == (if s.buffs@[i].active {
        s.buffs@[i]
    } else {
        spec_empty_buff()
    }) by {
        lemma_buff_roundtrip(s.buffs@[i]);
    }
    assert(u.buff_count == count_active_prefix(s.buffs@, 4)) by {
        reveal_with_fuel(count_active_prefix, 9);
    }
}

/// A packed buff slot fits in 16 bits with the two reserved bits clear.
proof fn lemma_pack_buff_le(b: BuffSlot)
    ensures
        spec_pack_buff(b) <= 0xFFFC,
{
    if b.active {
        let s = spec_stat_code(b.stat);
        let d: u16 = if b.is_debuff {
            1
        } else {
            0
        };
        let raw_v = b.value as u16;
        let raw_t = b.turns_remaining as u16;
        assert(raw_v & 0x3F <= 0x3F && raw_t & 0x0F <= 0x0F) by (bit_vector);
        let v = raw_v & 0x3F;
        let t = raw_t & 0x0F;
        assert((s << 14) | (d << 13) | (v << 7) | (t << 3) | (1u16 << 2) <= 0xFFFC) by (bit_vector)
            requires
                s <= 2,
                d <= 1,
                v <= 0x3F,
                t <= 0x0F,
        ;
    }
}

/// Packing then unpacking one well-formed slot reproduces it exactly when it
/// is active, and yields the cleared slot when it is not.
proof fn lemma_buff_roundtrip(b: BuffSlot)
    requires
        crate::types::buff_wf(b),
    ensures
        spec_unpack_buff(spec_pack_buff(b)) == (if b.active {
            b
        } else {
            spec_empty_buff()
        }),
{
    if b.active {
        let s = spec_stat_code(b.stat);
        let d: u16 = if b.is_debuff {
            1
        } else {
            0
        };
        let v = b.value as u16;
        let t = b.turns_remaining as u16;
        let p = spec_pack_buff(b);
        assert(v & 0x3F == v && t & 0x0F == t) by (bit_vector)
            requires
                v <= 63,
                t <= 15,
        ;
        let packed = (s << 14) | (d << 13) | ((v & 0x3F) << 7) | ((t & 0x0F) << 3) | (1u16 << 2);
        assert((packed >> 2) & 1 == 1 && (packed >> 14) & 3 == s && (packed >> 13) & 1 == d && (
        packed >> 7) & 0x3F == v && (packed >> 3) & 0x0F == t) by (bit_vector)
            requires
                s <= 2,
                d <= 1,
                v <= 63,
                t <= 15,
                packed == (s << 14) | (d << 13) | ((v & 0x3F) << 7) | ((t & 0x0F) << 3) | (1u16
                    << 2),
        ;
        assert((0u16 >> 2) & 1 == 0) by (bit_vector);
    } else {
        assert((0u16 >> 2) & 1 == 0) by (bit_vector);
    }
}

} // verus!
