//! Core data model: elements, abilities, champions, buff slots and per-match
//! combatant state, together with the views and well-formedness predicates the
//! rest of the crate builds on.

use vstd::prelude::*;

verus! {

/// Upper bound on every static champion stat (attack, defense, speed, ability
/// power, heal amount). Keeps all damage arithmetic comfortably inside u64.
pub const STAT_CAP: u32 = 1000;

/// Upper bound on a champion's hit points. Keeps the packed `hp:max_hp` word
/// below the storage field ceiling.
pub const HP_CAP: u32 = 1000000;

/// Number of buff slots carried by each combatant.
pub const MAX_BUFFS: usize = 8;

/// Capacity of the per-turn event log.
pub const MAX_EVENTS: usize = 16;

/// Largest buff magnitude the packed 6-bit field can hold.
pub const BUFF_VALUE_MAX: u32 = 63;

/// Largest buff duration the packed 4-bit field can hold.
pub const BUFF_TURNS_MAX: u32 = 15;

/// The four elements. Advantage runs in the cycle
/// Fire -> Earth -> Wind -> Water -> Fire.
#[derive(Clone, Copy, Debug, PartialEq, Eq, Structural)]
pub enum Element {
    Fire,
    Water,
    Earth,
    Wind,
}

/// What an ability does when it resolves.
#[derive(Clone, Copy, Debug, PartialEq, Eq, Structural)]
pub enum AbilityType {
    Damage,
    DamageDot,
    Heal,
    Buff,
    Debuff,
}

/// The stat a buff or debuff modifies.
#[derive(Clone, Copy, Debug, PartialEq, Eq, Structural)]
pub enum StatType {
    Defense,
    Speed,
    Attack,
}

/// A champion ability: either a direct or damage-over-time attack, a self
/// heal, or a stat modifier applied to self (buff) or the opponent (debuff).
#[derive(Clone, Copy, Debug, PartialEq, Eq, Structural)]
pub struct Ability {
    pub power: u32,
    pub ability_type: AbilityType,
    pub stat: StatType,
    pub stat_value: u32,
    pub duration: u32,
    pub heal_amount: u32,
    pub applies_burn: bool,
}

/// A static catalog entry.
#[derive(Clone, Copy, Debug)]
pub struct Champion {
    pub id: u8,
    pub hp: u32,
    pub attack: u32,
    pub defense: u32,
    pub speed: u32,
    pub element: Element,
    pub abilities: [Ability; 2],
}

/// Mathematical image of a [`Champion`]: integer stats and the two abilities
/// as a sequence.
#[verifier::ext_equal]
pub ghost struct ChampionView {
    pub id: int,
    pub hp: int,
    pub attack: int,
    pub defense: int,
    pub speed: int,
    pub element: Element,
    pub abilities: Seq<Ability>,
}

impl View for Champion {
    type V = ChampionView;

    open spec fn view(&self) -> ChampionView {
        ChampionView {
            id: self.id as int,
            hp: self.hp as int,
            attack: self.attack as int,
            defense: self.defense as int,
            speed: self.speed as int,
            element: self.element,
            abilities: self.abilities@,
        }
    }
}

/// A single stat modifier on a combatant. Inactive slots are free for reuse.
#[derive(Clone, Copy, Debug, PartialEq, Eq, Structural)]
pub struct BuffSlot {
    pub stat: StatType,
    pub value: u32,
    pub turns_remaining: u32,
    pub is_debuff: bool,
    pub active: bool,
}

/// The cleared slot value: inactive, zero magnitude, zero duration.
pub open spec fn spec_empty_buff() -> BuffSlot {
    BuffSlot { stat: StatType::Defense, value: 0, turns_remaining: 0, is_debuff: false, active: false }
}

impl BuffSlot {
    /// The cleared slot value.
    pub fn empty() -> (r: BuffSlot)
        ensures
            r == spec_empty_buff(),
    {
        BuffSlot { stat: StatType::Defense, value: 0, turns_remaining: 0, is_debuff: false, active: false }
    }
}

/// A buff slot whose fields fit the packed 16-bit layout: 6-bit magnitude,
/// 4-bit duration, and at least one turn left while the slot is active.
pub open spec fn buff_wf(b: BuffSlot) -> bool {
    &&& b.value <= BUFF_VALUE_MAX
    &&& b.turns_remaining <= BUFF_TURNS_MAX
    &&& b.active ==> b.turns_remaining >= 1
}

/// Number of active slots in a prefix of a buff sequence.
pub open spec fn count_active_prefix(buffs: Seq<BuffSlot>, n: int) -> int
    decreases n,
{
    if n <= 0 {
        0
    } else {
        count_active_prefix(buffs, n - 1) + if buffs[n - 1].active { 1int } else { 0int }
    }
}

/// Number of active slots in a buff sequence.
pub open spec fn count_active(buffs: Seq<BuffSlot>) -> int {
    count_active_prefix(buffs, buffs.len() as int)
}

/// Mutable per-match state of one combatant.
#[derive(Clone, Copy, Debug, PartialEq)]
pub struct ChampionState {
    pub id: u8,
    pub current_hp: u32,
    pub max_hp: u32,
    pub buffs: [BuffSlot; MAX_BUFFS],
    pub buff_count: u8,
    pub burn_turns: u32,
    pub is_ko: bool,
    pub total_damage_dealt: u32,
}

/// Mathematical image of a [`ChampionState`].
#[verifier::ext_equal]
pub ghost struct ChampionStateView {
    pub id: int,
    pub current_hp: int,
    pub max_hp: int,
    pub buffs: Seq<BuffSlot>,
    pub buff_count: int,
    pub burn_turns: int,
    pub is_ko: bool,
    pub total_damage_dealt: int,
}

impl View for ChampionState {
    type V = ChampionStateView;

    open spec fn view(&self) -> ChampionStateView {
        ChampionStateView {
            id: self.id as int,
            current_hp: self.current_hp as int,
            max_hp: self.max_hp as int,
            buffs: self.buffs@,
            buff_count: self.buff_count as int,
            burn_turns: self.burn_turns as int,
            is_ko: self.is_ko,
            total_damage_dealt: self.total_damage_dealt as int,
        }
    }
}

/// Well-formed combatant state: hit points within range, the knockout flag
/// derived from hit points, every slot within packing range, and the cached
/// buff count equal to the number of active slots.
pub open spec fn state_wf(s: ChampionStateView) -> bool {
    &&& s.buffs.len() == MAX_BUFFS
    &&& 0 <= s.current_hp <= s.max_hp
    &&& s.max_hp <= HP_CAP as int
    &&& (s.is_ko <==> s.current_hp == 0)
    &&& forall|i: int| 0 <= i < s.buffs.len() ==> buff_wf(#[trigger] s.buffs[i])
    &&& s.buff_count == count_active(s.buffs)
}

/// One side's chosen move for a round: which champion acts and with which of
/// its two abilities.
#[derive(Clone, Copy, Debug, PartialEq, Eq, Structural)]
pub struct TurnAction {
    pub champion_id: u8,
    pub ability_index: u8,
}

/// One entry of the per-turn event log.
#[derive(Clone, Copy, Debug, PartialEq, Eq, Structural)]
pub enum TurnEvent {
    Attack { attacker_id: u8, defender_id: u8, damage: u32, mult_x100: u32 },
    Heal { champion_id: u8, amount: u32, new_hp: u32 },
    Buff { champion_id: u8, stat: StatType, value: u32, duration: u32 },
    Debuff { target_id: u8, stat: StatType, value: u32, duration: u32 },
    BurnTick { champion_id: u8, damage: u32 },
    Ko { champion_id: u8 },
    BurnApplied { target_id: u8, duration: u32 },
    Empty,
}

/// Result of resolving one combat round: both updated combatants and the
/// ordered event log (the first `event_count` entries of `events`).
#[derive(Clone, Copy, Debug, PartialEq)]
pub struct TurnResult {
    pub state_a: ChampionState,
    pub state_b: ChampionState,
    pub events: [TurnEvent; MAX_EVENTS],
    pub event_count: u8,
}

} // verus!
