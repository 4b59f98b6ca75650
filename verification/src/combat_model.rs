//! Mathematical model of turn resolution. The executable turn resolver in
//! [`crate::combat`] is proved to compute exactly these functions.
//!
//! The model returns `Option`: `None` marks the one fatal condition, a stat
//! modifier that finds no free buff slot. The executable code never reaches
//! that condition when it is called within capacity (see
//! [`lemma_resolve_turn_fits`]).

use vstd::prelude::*;
use crate::champions::{champion_wf, spec_champion, N_CHAMPIONS};
use crate::damage::{spec_burn_damage, spec_damage, spec_sum_mods};
use crate::types::{
    Ability, AbilityType, BuffSlot, ChampionStateView, ChampionView, StatType, TurnAction,
    TurnEvent, count_active, count_active_prefix, spec_empty_buff, state_wf, MAX_BUFFS,
};

verus! {

/// Index of the first free (inactive) slot at or after `i`, or -1.
pub open spec fn spec_first_free_from(buffs: Seq<BuffSlot>, i: int) -> int
    decreases buffs.len() - i,
{
    if i < 0 || i >= buffs.len() {
        -1
    } else if !buffs[i].active {
        i
    } else {
        spec_first_free_from(buffs, i + 1)
    }
}

/// Index of the first free buff slot, or -1 when every slot is active.
pub open spec fn spec_first_free(buffs: Seq<BuffSlot>) -> int {
    spec_first_free_from(buffs, 0)
}

/// Insert a modifier into the first free slot; `None` when all are taken.
pub open spec fn spec_insert_buff(s: ChampionStateView, slot: BuffSlot) -> Option<ChampionStateView> {
    let i = spec_first_free(s.buffs);
    if i < 0 {
        None
    } else {
        Some(ChampionStateView {
            buffs: s.buffs.update(i, BuffSlot { active: true, ..slot }),
            buff_count: s.buff_count + 1,
            ..s
        })
    }
}

/// Hit points after taking `dmg` damage, saturating at zero.
pub open spec fn spec_hp_after_damage(hp: int, dmg: int) -> int {
    if hp > dmg {
        hp - dmg
    } else {
        0
    }
}

/// Damage tally after dealing `dmg`, saturating at the counter's maximum.
pub open spec fn spec_tally_damage(tally: int, dmg: int) -> int {
    if tally + dmg <= u32::MAX as int {
        tally + dmg
    } else {
        u32::MAX as int
    }
}

/// Outcome of one attack on `target_s`: hit points drop by `dmg` (saturating),
/// and the knockout flag is set when they reach zero.
pub open spec fn spec_take_damage(target_s: ChampionStateView, dmg: int) -> ChampionStateView {
    let new_hp = spec_hp_after_damage(target_s.current_hp, dmg);
    ChampionStateView {
        current_hp: new_hp,
        is_ko: if new_hp == 0 { true } else { target_s.is_ko },
        ..target_s
    }
}

/// Resolve one ability use by `actor` against `target`.
/// Returns the updated (actor, target) states and the emitted events, or
/// `None` when a stat modifier finds no free slot.
pub open spec fn spec_apply_action(
    actor_c: ChampionView,
    actor_s: ChampionStateView,
    ability: Ability,
    target_c: ChampionView,
    target_s: ChampionStateView,
) -> Option<(ChampionStateView, ChampionStateView, Seq<TurnEvent>)> {
    match ability.ability_type {
        AbilityType::Damage => {
            let (dmg, mult) = spec_damage(actor_c, target_c, target_s.buffs, ability, actor_s.buffs);
            let target1 = spec_take_damage(target_s, dmg);
            let actor1 = ChampionStateView {
                total_damage_dealt: spec_tally_damage(actor_s.total_damage_dealt, dmg),
                ..actor_s
            };
            let attack_ev = TurnEvent::Attack {
                attacker_id: actor_c.id as u8,
                defender_id: target_c.id as u8,
                damage: dmg as u32,
                mult_x100: mult as u32,
            };
            let evs = if target1.current_hp == 0 {
                seq![attack_ev, TurnEvent::Ko { champion_id: target_c.id as u8 }]
            } else {
                seq![attack_ev]
            };
            Some((actor1, target1, evs))
        },
        AbilityType::DamageDot => {
            let (dmg, mult) = spec_damage(actor_c, target_c, target_s.buffs, ability, actor_s.buffs);
            let target1 = spec_take_damage(target_s, dmg);
            let actor1 = ChampionStateView {
                total_damage_dealt: spec_tally_damage(actor_s.total_damage_dealt, dmg),
                ..actor_s
            };
            let attack_ev = TurnEvent::Attack {
                attacker_id: actor_c.id as u8,
                defender_id: target_c.id as u8,
                damage: dmg as u32,
                mult_x100: mult as u32,
            };
            let evs = if target1.current_hp == 0 {
                seq![attack_ev, TurnEvent::Ko { champion_id: target_c.id as u8 }]
            } else {
                seq![attack_ev]
            };
            if ability.applies_burn && ability.duration > 0 && !target1.is_ko {
                let target2 = ChampionStateView { burn_turns: ability.duration as int, ..target1 };
                let evs2 = evs + seq![TurnEvent::BurnApplied {
                    target_id: target_c.id as u8,
                    duration: ability.duration,
                }];
                Some((actor1, target2, evs2))
            } else {
                Some((actor1, target1, evs))
            }
        },
        AbilityType::Heal => {
            let new_hp = if actor_s.current_hp + ability.heal_amount > actor_s.max_hp {
                actor_s.max_hp
            } else {
                actor_s.current_hp + ability.heal_amount
            };
            let actor1 = ChampionStateView { current_hp: new_hp, ..actor_s };
            let evs = seq![TurnEvent::Heal {
                champion_id: actor_c.id as u8,
                amount: (new_hp - actor_s.current_hp) as u32,
                new_hp: new_hp as u32,
            }];
            Some((actor1, target_s, evs))
        },
        AbilityType::Buff => {
            if ability.stat_value > 0 && ability.duration > 0 {
                let slot = BuffSlot {
                    stat: ability.stat,
                    value: ability.stat_value,
                    turns_remaining: ability.duration,
                    is_debuff: false,
                    active: true,
                };
                match spec_insert_buff(actor_s, slot) {
                    Option::None => None,
                    Option::Some(actor1) => {
                        let evs = seq![TurnEvent::Buff {
                            champion_id: actor_c.id as u8,
                            stat: ability.stat,
                            value: ability.stat_value,
                            duration: ability.duration,
                        }];
                        Some((actor1, target_s, evs))
                    },
                }
            } else {
                Some((actor_s, target_s, Seq::empty()))
            }
        },
        AbilityType::Debuff => {
            if ability.stat_value > 0 && ability.duration > 0 {
                let slot = BuffSlot {
                    stat: ability.stat,
                    value: ability.stat_value,
                    turns_remaining: ability.duration,
                    is_debuff: true,
                    active: true,
                };
                match spec_insert_buff(target_s, slot) {
                    Option::None => None,
                    Option::Some(target1) => {
                        let evs = seq![TurnEvent::Debuff {
                            target_id: target_c.id as u8,
                            stat: ability.stat,
                            value: ability.stat_value,
                            duration: ability.duration,
                        }];
                        Some((actor_s, target1, evs))
                    },
                }
            } else {
                Some((actor_s, target_s, Seq::empty()))
            }
        },
    }
}

/// One burn tick: while burning and not knocked out, lose burn damage, spend
/// one burn turn, and fall at zero hit points.
pub open spec fn spec_burn_tick(s: ChampionStateView) -> (ChampionStateView, Seq<TurnEvent>) {
    if s.burn_turns > 0 && !s.is_ko {
        let bd = spec_burn_damage(s.max_hp);
        let new_hp = spec_hp_after_damage(s.current_hp, bd);
        let s1 = ChampionStateView {
            current_hp: new_hp,
            burn_turns: s.burn_turns - 1,
            is_ko: if new_hp == 0 { true } else { s.is_ko },
            ..s
        };
        let tick_ev = TurnEvent::BurnTick { champion_id: s.id as u8, damage: bd as u32 };
        let evs = if new_hp == 0 {
            seq![tick_ev, TurnEvent::Ko { champion_id: s.id as u8 }]
        } else {
            seq![tick_ev]
        };
        (s1, evs)
    } else {
        (s, Seq::empty())
    }
}

/// One end-of-round tick of a single slot: an active modifier loses one turn
/// and is deactivated when none remain.
pub open spec fn spec_tick_slot(b: BuffSlot) -> BuffSlot {
    if !b.active {
        b
    } else if b.turns_remaining <= 1 {
        BuffSlot { turns_remaining: 0, active: false, ..b }
    } else {
        BuffSlot { turns_remaining: (b.turns_remaining - 1) as u32, ..b }
    }
}

/// End-of-round tick of every slot, with the cached count recomputed.
pub open spec fn spec_tick_buffs(s: ChampionStateView) -> ChampionStateView {
    let new_buffs = Seq::new(s.buffs.len(), |i: int| spec_tick_slot(s.buffs[i]));
    ChampionStateView { buffs: new_buffs, buff_count: count_active(new_buffs), ..s }
}

/// Effective speed: base speed plus active speed buffs.
pub open spec fn spec_effective_speed(c: ChampionView, s: ChampionStateView) -> int {
    c.speed + spec_sum_mods(s.buffs, StatType::Speed, false)
}

/// Whether side A acts first: strictly higher effective speed wins, and an
/// exact tie falls to side A unless side B fields the champion with the
/// strictly lower id.
pub open spec fn spec_a_goes_first(a: ChampionStateView, b: ChampionStateView) -> bool {
    let ca = spec_champion(a.id);
    let cb = spec_champion(b.id);
    let speed_a = spec_effective_speed(ca, a);
    let speed_b = spec_effective_speed(cb, b);
    speed_a > speed_b || (speed_a == speed_b && ca.id <= cb.id)
}

/// Resolve one full round: both actions in speed order (the second skipped if
/// its actor falls), then burn ticks on A and B in that fixed order, then the
/// end-of-round buff tick on both. Events are logged in that same order.
/// `None` marks buff-slot exhaustion; the round then has no defined outcome.
pub open spec fn spec_resolve_turn(
    a: ChampionStateView,
    b: ChampionStateView,
    action_a: TurnAction,
    action_b: TurnAction,
) -> Option<(ChampionStateView, ChampionStateView, Seq<TurnEvent>)> {
    let ca = spec_champion(a.id);
    let cb = spec_champion(b.id);
    let ability_a = ca.abilities[action_a.ability_index as int];
    let ability_b = cb.abilities[action_b.ability_index as int];
    let first_result = if spec_a_goes_first(a, b) {
        match spec_apply_action(ca, a, ability_a, cb, b) {
            Option::None => None,
            Option::Some((a1, b1, ev1)) => {
                if !b1.is_ko {
                    match spec_apply_action(cb, b1, ability_b, ca, a1) {
                        Option::None => None,
                        Option::Some((b2, a2, ev2)) => Some((a2, b2, ev1 + ev2)),
                    }
                } else {
                    Some((a1, b1, ev1))
                }
            },
        }
    } else {
        match spec_apply_action(cb, b, ability_b, ca, a) {
            Option::None => None,
            Option::Some((b1, a1, ev1)) => {
                if !a1.is_ko {
                    match spec_apply_action(ca, a1, ability_a, cb, b1) {
                        Option::None => None,
                        Option::Some((a2, b2, ev2)) => Some((a2, b2, ev1 + ev2)),
                    }
                } else {
                    Some((a1, b1, ev1))
                }
            },
        }
    };
    match first_result {
        Option::None => None,
        Option::Some((a2, b2, evs)) => {
            let (a3, eva) = spec_burn_tick(a2);
            let (b3, evb) = spec_burn_tick(b2);
            let a4 = spec_tick_buffs(a3);
            let b4 = spec_tick_buffs(b3);
            Some((a4, b4, evs + eva + evb))
        },
    }
}

// ---------------------------------------------------------------------------
// Counting lemmas
// ---------------------------------------------------------------------------

/// The active count of a prefix never exceeds its length.
pub proof fn lemma_count_active_le(buffs: Seq<BuffSlot>, n: int)
    requires
        0 <= n <= buffs.len(),
    ensures
        0 <= count_active_prefix(buffs, n) <= n,
    decreases n,
{
    if n > 0 {
        lemma_count_active_le(buffs, n - 1);
    }
}

/// Updating one slot changes the active count by the difference at that slot.
pub proof fn lemma_count_active_update(buffs: Seq<BuffSlot>, i: int, b: BuffSlot, n: int)
    requires
        0 <= i < buffs.len(),
        0 <= n <= buffs.len(),
    ensures
        count_active_prefix(buffs.update(i, b), n) == count_active_prefix(buffs, n) + if i < n {
            (if b.active { 1int } else { 0int }) - (if buffs[i].active { 1int } else { 0int })
        } else {
            0int
        },
    decreases n,
{
    if n > 0 {
        lemma_count_active_update(buffs, i, b, n - 1);
    }
}

/// When the first free search fails, every slot from `i` on is active.
pub proof fn lemma_first_free_properties(buffs: Seq<BuffSlot>, i: int)
    requires
        0 <= i <= buffs.len(),
    ensures
        -1 <= spec_first_free_from(buffs, i) < buffs.len(),
        spec_first_free_from(buffs, i) == -1 ==> forall|j: int|
            i <= j < buffs.len() ==> (#[trigger] buffs[j]).active,
        spec_first_free_from(buffs, i) >= 0 ==> i <= spec_first_free_from(buffs, i)
            < buffs.len() && !buffs[spec_first_free_from(buffs, i)].active,
    decreases buffs.len() - i,
{
    if i < buffs.len() && buffs[i].active {
        lemma_first_free_properties(buffs, i + 1);
    }
}

/// A prefix in which no slot is active has a zero count.
pub proof fn lemma_count_none_active(buffs: Seq<BuffSlot>, n: int)
    requires
        0 <= n <= buffs.len(),
        forall|j: int| 0 <= j < n ==> !(#[trigger] buffs[j]).active,
    ensures
        count_active_prefix(buffs, n) == 0,
    decreases n,
{
    if n > 0 {
        lemma_count_none_active(buffs, n - 1);
    }
}

/// A prefix in which every slot is active has a full count.
pub proof fn lemma_count_all_active(buffs: Seq<BuffSlot>, n: int)
    requires
        0 <= n <= buffs.len(),
        forall|j: int| 0 <= j < buffs.len() ==> (#[trigger] buffs[j]).active,
    ensures
        count_active_prefix(buffs, n) == n,
    decreases n,
{
    if n > 0 {
        lemma_count_all_active(buffs, n - 1);
    }
}

/// A buff array with spare capacity always has a free slot: if the active
/// count is below the array length, insertion succeeds.
pub proof fn lemma_free_slot_exists(buffs: Seq<BuffSlot>)
    requires
        count_active(buffs) < buffs.len(),
    ensures
        spec_first_free(buffs) >= 0,
{
    lemma_first_free_properties(buffs, 0);
    if spec_first_free(buffs) == -1 {
        lemma_count_all_active(buffs, buffs.len() as int);
    }
}

/// One ability use always has a defined outcome while both buff arrays have a
/// spare slot, and it activates at most one new slot on each side.
pub proof fn lemma_apply_action_fits(
    actor_c: ChampionView,
    actor_s: ChampionStateView,
    ability: Ability,
    target_c: ChampionView,
    target_s: ChampionStateView,
)
    requires
        count_active(actor_s.buffs) < actor_s.buffs.len(),
        count_active(target_s.buffs) < target_s.buffs.len(),
    ensures
        spec_apply_action(actor_c, actor_s, ability, target_c, target_s).is_some(),
        ({
            let (a1, t1, evs) = spec_apply_action(actor_c, actor_s, ability, target_c, target_s).unwrap();
            &&& a1.buffs.len() == actor_s.buffs.len()
            &&& t1.buffs.len() == target_s.buffs.len()
            &&& count_active(a1.buffs) <= count_active(actor_s.buffs) + 1
            &&& count_active(t1.buffs) <= count_active(target_s.buffs) + 1
        }),
{
    match ability.ability_type {
        AbilityType::Buff => {
            if ability.stat_value > 0 && ability.duration > 0 {
                lemma_free_slot_exists(actor_s.buffs);
                let i = spec_first_free(actor_s.buffs);
                lemma_first_free_properties(actor_s.buffs, 0);
                let slot = BuffSlot {
                    stat: ability.stat,
                    value: ability.stat_value,
                    turns_remaining: ability.duration,
                    is_debuff: false,
                    active: true,
                };
                lemma_count_active_update(
                    actor_s.buffs,
                    i,
                    BuffSlot { active: true, ..slot },
                    actor_s.buffs.len() as int,
                );
            }
        },
        AbilityType::Debuff => {
            if ability.stat_value > 0 && ability.duration > 0 {
                lemma_free_slot_exists(target_s.buffs);
                let i = spec_first_free(target_s.buffs);
                lemma_first_free_properties(target_s.buffs, 0);
                let slot = BuffSlot {
                    stat: ability.stat,
                    value: ability.stat_value,
                    turns_remaining: ability.duration,
                    is_debuff: true,
                    active: true,
                };
                lemma_count_active_update(
                    target_s.buffs,
                    i,
                    BuffSlot { active: true, ..slot },
                    target_s.buffs.len() as int,
                );
            }
        },
        _ => {},
    }
}

/// Capacity law: a round always has a defined outcome while each side carries
/// at most six active modifiers, since a single round can activate at most two
/// new slots on either side of the eight available.
pub proof fn lemma_resolve_turn_fits(
    a: ChampionStateView,
    b: ChampionStateView,
    action_a: TurnAction,
    action_b: TurnAction,
)
    requires
        a.buffs.len() == MAX_BUFFS,
        b.buffs.len() == MAX_BUFFS,
        count_active(a.buffs) <= MAX_BUFFS - 2,
        count_active(b.buffs) <= MAX_BUFFS - 2,
    ensures
        spec_resolve_turn(a, b, action_a, action_b).is_some(),
{
    let ca = spec_champion(a.id);
    let cb = spec_champion(b.id);
    let ability_a = ca.abilities[action_a.ability_index as int];
    let ability_b = cb.abilities[action_b.ability_index as int];
    lemma_count_active_le(a.buffs, a.buffs.len() as int);
    lemma_count_active_le(b.buffs, b.buffs.len() as int);
    if spec_a_goes_first(a, b) {
        lemma_apply_action_fits(ca, a, ability_a, cb, b);
        let (a1, b1, ev1) = spec_apply_action(ca, a, ability_a, cb, b).unwrap();
        if !b1.is_ko {
            lemma_apply_action_fits(cb, b1, ability_b, ca, a1);
        }
    } else {
        lemma_apply_action_fits(cb, b, ability_b, ca, a);
        let (b1, a1, ev1) = spec_apply_action(cb, b, ability_b, ca, a).unwrap();
        if !a1.is_ko {
            lemma_apply_action_fits(ca, a1, ability_a, cb, b1);
        }
    }
}

/// Determinism law: the outcome of a round is a function of the two combatant
/// states and the two chosen actions alone. Resolving the same inputs twice
/// yields the same updated states and the same event log.
pub proof fn lemma_resolve_turn_deterministic(
    a1: ChampionStateView,
    b1: ChampionStateView,
    x1: TurnAction,
    y1: TurnAction,
    a2: ChampionStateView,
    b2: ChampionStateView,
    x2: TurnAction,
    y2: TurnAction,
)
    requires
        a1 == a2,
        b1 == b2,
        x1 == x2,
        y1 == y2,
    ensures
        spec_resolve_turn(a1, b1, x1, y1) == spec_resolve_turn(a2, b2, x2, y2),
{
}

/// Priority law: the side with strictly higher effective speed acts first,
/// and an exact speed tie between equal champion ids (the same champion on
/// both sides) falls to side A.
pub proof fn lemma_speed_priority(a: ChampionStateView, b: ChampionStateView)
    ensures
        spec_effective_speed(spec_champion(a.id), a) > spec_effective_speed(spec_champion(b.id), b)
            ==> spec_a_goes_first(a, b),
        spec_effective_speed(spec_champion(a.id), a) < spec_effective_speed(spec_champion(b.id), b)
            ==> !spec_a_goes_first(a, b),
        spec_effective_speed(spec_champion(a.id), a) == spec_effective_speed(spec_champion(b.id), b)
            && spec_champion(a.id).id == spec_champion(b.id).id ==> spec_a_goes_first(a, b),
{
}

} // verus!
