//! Damage and ability arithmetic: buff/debuff sums, the damage formula with
//! its minimum-one floor, and burn tick damage.

use vstd::prelude::*;
use crate::elements::spec_type_multiplier;
use crate::elements::get_type_multiplier;
use crate::champions::{ability_wf, champion_wf};
use crate::types::{Ability, BuffSlot, Champion, ChampionState, StatType, MAX_BUFFS};
use crate::types::BUFF_VALUE_MAX;

verus! {

/// Every slot of a buff array fits the packed field widths.
pub open spec fn buffs_wf(buffs: Seq<BuffSlot>) -> bool {
    &&& buffs.len() == MAX_BUFFS
    &&& forall|i: int| 0 <= i < buffs.len() ==> crate::types::buff_wf(#[trigger] buffs[i])
}

/// Sum of the magnitudes of the active slots among the first `n` that match
/// `stat` and whose debuff flag equals `debuff`.
pub open spec fn spec_sum_mods_prefix(buffs: Seq<BuffSlot>, stat: StatType, debuff: bool, n: int) -> int
    decreases n,
{
    if n <= 0 {
        0
    } else {
        spec_sum_mods_prefix(buffs, stat, debuff, n - 1) + if buffs[n - 1].active
            && buffs[n - 1].stat == stat && buffs[n - 1].is_debuff == debuff {
            buffs[n - 1].value as int
        } else {
            0int
        }
    }
}

/// Total magnitude of the active modifiers on `stat`: buffs when `debuff` is
/// false, debuffs when it is true.
pub open spec fn spec_sum_mods(buffs: Seq<BuffSlot>, stat: StatType, debuff: bool) -> int {
    spec_sum_mods_prefix(buffs, stat, debuff, buffs.len() as int)
}

/// A modifier sum over well-formed slots is bounded by the per-slot maximum.
pub proof fn lemma_sum_mods_bound(buffs: Seq<BuffSlot>, stat: StatType, debuff: bool, n: int)
    requires
        0 <= n <= buffs.len(),
        forall|i: int| 0 <= i < buffs.len() ==> crate::types::buff_wf(#[trigger] buffs[i]),
    ensures
        0 <= spec_sum_mods_prefix(buffs, stat, debuff, n) <= n * BUFF_VALUE_MAX,
    decreases n,
{
    if n > 0 {
        lemma_sum_mods_bound(buffs, stat, debuff, n - 1);
    }
}

/// Sum the active buff magnitudes for one stat (buffs only, not debuffs).
pub fn sum_buffs(state: &ChampionState, stat: StatType) -> (total: u32)
    requires
        buffs_wf(state@.buffs),
    ensures
        total == spec_sum_mods(state@.buffs, stat, false),
        total <= MAX_BUFFS * BUFF_VALUE_MAX,
{
    proof {
        lemma_sum_mods_bound(state@.buffs, stat, false, MAX_BUFFS as int);
    }
    let mut total: u32 = 0;
    for i in 0..MAX_BUFFS
        invariant
            buffs_wf(state@.buffs),
            total == spec_sum_mods_prefix(state@.buffs, stat, false, i as int),
            total <= i * BUFF_VALUE_MAX,
    {
        proof {
            lemma_sum_mods_bound(state@.buffs, stat, false, i as int);
        }
        if state.buffs[i].active && state.buffs[i].stat == stat && !state.buffs[i].is_debuff {
            total += state.buffs[i].value;
        }
    }
    total
}

/// Sum the active debuff magnitudes for one stat (debuffs only).
pub fn sum_debuffs(state: &ChampionState, stat: StatType) -> (total: u32)
    requires
        buffs_wf(state@.buffs),
    ensures
        total == spec_sum_mods(state@.buffs, stat, true),
        total <= MAX_BUFFS * BUFF_VALUE_MAX,
{
    proof {
        lemma_sum_mods_bound(state@.buffs, stat, true, MAX_BUFFS as int);
    }
    let mut total: u32 = 0;
    for i in 0..MAX_BUFFS
        invariant
            buffs_wf(state@.buffs),
            total == spec_sum_mods_prefix(state@.buffs, stat, true, i as int),
            total <= i * BUFF_VALUE_MAX,
    {
        proof {
            lemma_sum_mods_bound(state@.buffs, stat, true, i as int);
        }
        if state.buffs[i].active && state.buffs[i].stat == stat && state.buffs[i].is_debuff {
            total += state.buffs[i].value;
        }
    }
    total
}

/// Attack stat after active attack debuffs, saturating at zero.
pub open spec fn spec_effective_attack(attack: int, attacker_buffs: Seq<BuffSlot>) -> int {
    let debuffs = spec_sum_mods(attacker_buffs, StatType::Attack, true);
    if attack >= debuffs {
        attack - debuffs
    } else {
        0
    }
}

/// Defense stat plus active defense buffs.
pub open spec fn spec_effective_defense(defense: int, defender_buffs: Seq<BuffSlot>) -> int {
    defense + spec_sum_mods(defender_buffs, StatType::Defense, false)
}

/// The damage formula. `attacker`/`defender` are the catalog entries,
/// `attacker_buffs`/`defender_buffs` the combatants' buff arrays. Yields
/// (damage, multiplier x100): raw damage is
/// power * (20 + effective attack) * multiplier / 2000, reduced by effective
/// defense with a floor of one point.
pub open spec fn spec_damage(
    attacker: crate::types::ChampionView,
    defender: crate::types::ChampionView,
    defender_buffs: Seq<BuffSlot>,
    ability: Ability,
    attacker_buffs: Seq<BuffSlot>,
) -> (int, int) {
    let eff_atk = spec_effective_attack(attacker.attack, attacker_buffs);
    let mult = spec_type_multiplier(attacker.element, defender.element) as int;
    let eff_def = spec_effective_defense(defender.defense, defender_buffs);
    let raw = ability.power * (20 + eff_atk) * mult / 2000;
    let dmg = if raw > eff_def {
        raw - eff_def
    } else {
        1int
    };
    (dmg, mult)
}

/// Compute the damage of one damage-ability use.
/// Returns (damage, elemental multiplier x100); the damage is never zero.
pub fn calculate_damage(
    attacker: &Champion,
    defender: &Champion,
    defender_state: &ChampionState,
    ability: &Ability,
    attacker_state: &ChampionState,
) -> (r: (u32, u32))
    requires
        champion_wf(attacker@),
        champion_wf(defender@),
        ability_wf(*ability),
        buffs_wf(attacker_state@.buffs),
        buffs_wf(defender_state@.buffs),
    ensures
        (r.0 as int, r.1 as int) == spec_damage(
            attacker@, defender@, defender_state@.buffs, *ability, attacker_state@.buffs),
        r.0 >= 1,
        r.0 <= 100000,
{
    let attack_debuffs = sum_debuffs(attacker_state, StatType::Attack);
    let effective_atk: u32 = if attacker.attack >= attack_debuffs {
        attacker.attack - attack_debuffs
    } else {
        0
    };

    let mult_x100 = get_type_multiplier(attacker.element, defender.element);

    let defense_buffs = sum_buffs(defender_state, StatType::Defense);
    let effective_def = defender.defense + defense_buffs;

    assert(ability.power as int * (20 + effective_atk as int) <= 1000 * 1020) by (nonlinear_arith)
        requires
            ability.power <= 1000,
            effective_atk <= 1000,
    ;
    assert(ability.power as int * (20 + effective_atk as int) * mult_x100 as int <= 1000 * 1020 * 150)
        by (nonlinear_arith)
        requires
            0 <= ability.power as int * (20 + effective_atk as int) <= 1000 * 1020,
            mult_x100 <= 150,
    ;
    let raw = (ability.power as u64) * (20 + effective_atk as u64) * (mult_x100 as u64) / 2000;
    let raw_u32 = raw as u32;

    let damage = if raw_u32 > effective_def {
        raw_u32 - effective_def
    } else {
        1
    };

    (damage, mult_x100)
}

/// Burn tick damage: a tenth of maximum hit points, with a floor of one.
pub open spec fn spec_burn_damage(max_hp: int) -> int {
    if max_hp / 10 >= 1 {
        max_hp / 10
    } else {
        1
    }
}

/// Compute the damage of one burn tick for this combatant.
pub fn calculate_burn_damage(state: &ChampionState) -> (r: u32)
    ensures
        r == spec_burn_damage(state@.max_hp),
        r >= 1,
{
    let base = state.max_hp / 10;
    if base >= 1 {
        base
    } else {
        1
    }
}

} // verus!
