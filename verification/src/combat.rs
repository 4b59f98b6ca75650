//! The executable turn resolver. Every function here computes exactly the
//! corresponding function of [`crate::combat_model`].

use vstd::prelude::*;
use crate::champions::{ability_wf, champion_wf, get_champion, spec_champion, N_CHAMPIONS};
use crate::combat_model::{
    lemma_count_active_le, lemma_count_active_update, lemma_first_free_properties,
    spec_apply_action, spec_a_goes_first, spec_burn_tick, spec_first_free, spec_first_free_from,
    spec_insert_buff, spec_resolve_turn, spec_tick_buffs, spec_tick_slot,
};
use crate::damage::{calculate_burn_damage, calculate_damage, sum_buffs};
use crate::types::{
    AbilityType, BuffSlot, Champion, ChampionState, StatType, TurnAction, TurnEvent, TurnResult,
    count_active, count_active_prefix, spec_empty_buff, state_wf, MAX_BUFFS, MAX_EVENTS,
};

verus! {

/// Append one event to the log.
fn push_event(events: &mut [TurnEvent; MAX_EVENTS], count: &mut u8, event: TurnEvent)
    requires
        *old(count) < MAX_EVENTS,
    ensures
        final(events)@ == old(events)@.update(*old(count) as int, event),
        *final(count) == *old(count) + 1,
{
    events[*count as usize] = event;
    *count += 1;
}

/// The first free slot is exactly where a scan from the front stops.
proof fn lemma_first_free_at(buffs: Seq<BuffSlot>, i: int, k: int)
    requires
        0 <= k <= i < buffs.len(),
        forall|j: int| 0 <= j < i ==> (#[trigger] buffs[j]).active,
        !buffs[i].active,
    ensures
        spec_first_free_from(buffs, k) == i,
    decreases i - k,
{
    if k < i {
        lemma_first_free_at(buffs, i, k + 1);
    }
}

/// Install a stat modifier in the first free buff slot.
fn insert_buff(state: &mut ChampionState, slot: BuffSlot)
    requires
        state_wf(old(state)@),
        spec_first_free(old(state)@.buffs) >= 0,
        slot.value <= crate::types::BUFF_VALUE_MAX,
        1 <= slot.turns_remaining <= crate::types::BUFF_TURNS_MAX,
    ensures
        Some(final(state)@) == spec_insert_buff(old(state)@, slot),
        state_wf(final(state)@),
{
    for i in 0..MAX_BUFFS
        invariant
            *state == *old(state),
            state_wf(state@),
            spec_first_free(state@.buffs) >= 0,
            slot.value <= crate::types::BUFF_VALUE_MAX,
            1 <= slot.turns_remaining <= crate::types::BUFF_TURNS_MAX,
            forall|j: int| 0 <= j < i ==> (#[trigger] state@.buffs[j]).active,
    {
        if !state.buffs[i].active {
            proof {
                let ghost pre = state@.buffs;
                lemma_first_free_at(pre, i as int, 0);
                lemma_count_active_le(pre, MAX_BUFFS as int);
                lemma_count_active_update(
                    pre,
                    i as int,
                    BuffSlot { active: true, ..slot },
                    MAX_BUFFS as int,
                );
            }
            let ghost pre = state@.buffs;
            state.buffs[i] = slot;
            state.buffs[i].active = true;
            assert(state@.buffs =~= pre.update(i as int, BuffSlot { active: true, ..slot }));
            state.buff_count += 1;
            assert(final(state)@ =~= spec_insert_buff(old(state)@, slot).unwrap());
            return;
        }
    }
    proof {
        lemma_first_free_properties(state@.buffs, 0);
        assert(false);
    }
}

/// Tick down every active modifier at the end of a round, deactivating those
/// whose last turn was spent.
fn tick_buffs(state: &mut ChampionState)
    requires
        state_wf(old(state)@),
    ensures
        final(state)@ == spec_tick_buffs(old(state)@),
        state_wf(final(state)@),
        final(state)@.id == old(state)@.id,
        final(state)@.max_hp == old(state)@.max_hp,
{
    for i in 0..MAX_BUFFS
        invariant
            state@.buffs.len() == MAX_BUFFS,
            state@.id == old(state)@.id,
            state@.current_hp == old(state)@.current_hp,
            state@.max_hp == old(state)@.max_hp,
            state@.burn_turns == old(state)@.burn_turns,
            state@.is_ko == old(state)@.is_ko,
            state@.total_damage_dealt == old(state)@.total_damage_dealt,
            state@.buff_count == count_active(state@.buffs),
            forall|j: int| 0 <= j < i ==> state@.buffs[j]
                == spec_tick_slot(#[trigger] old(state)@.buffs[j]),
            forall|j: int| i <= j < MAX_BUFFS ==> state@.buffs[j]
                == #[trigger] old(state)@.buffs[j],
            forall|j: int| 0 <= j < MAX_BUFFS ==> crate::types::buff_wf(#[trigger] state@.buffs[j]),
    {
        if state.buffs[i].active {
            let ghost pre = state@.buffs;
            state.buffs[i].turns_remaining -= 1;
            if state.buffs[i].turns_remaining == 0 {
                state.buffs[i].active = false;
                proof {
                    assert(state@.buffs =~= pre.update(i as int, state@.buffs[i as int]));
                    lemma_count_active_update(pre, i as int, state@.buffs[i as int], MAX_BUFFS as int);
                    lemma_count_active_le(pre, MAX_BUFFS as int);
                    lemma_count_active_le(state@.buffs, MAX_BUFFS as int);
                }
                state.buff_count = if state.buff_count >= 1 {
                    state.buff_count - 1
                } else {
                    0
                };
            } else {
                proof {
                    assert(state@.buffs =~= pre.update(i as int, state@.buffs[i as int]));
                    lemma_count_active_update(pre, i as int, state@.buffs[i as int], MAX_BUFFS as int);
                }
            }
        }
    }
    proof {
        let ticked = spec_tick_buffs(old(state)@);
        assert(state@.buffs =~= ticked.buffs);
        assert(state@ =~= ticked);
    }
}

/// Apply one burn tick: while burning and alive, lose burn damage, spend a
/// burn turn, and fall at zero hit points.
fn process_burn_tick(state: &mut ChampionState, events: &mut [TurnEvent; MAX_EVENTS], event_count: &mut u8)
    requires
        state_wf(old(state)@),
        *old(event_count) as int + 2 <= MAX_EVENTS,
    ensures
        state_wf(final(state)@),
        final(state)@.id == old(state)@.id,
        final(state)@.max_hp == old(state)@.max_hp,
        ({
            let (s1, evs) = spec_burn_tick(old(state)@);
            &&& final(state)@ == s1
            &&& *final(event_count) == *old(event_count) + evs.len()
            &&& evs.len() <= 2
            &&& (forall|j: int| 0 <= j < *old(event_count) ==> final(events)@[j]
                == #[trigger] old(events)@[j])
            &&& (forall|j: int| 0 <= j < evs.len() ==> final(events)@[*old(event_count) + j]
                == #[trigger] evs[j])
        }),
{
    if state.burn_turns > 0 && !state.is_ko {
        let burn_damage = calculate_burn_damage(state);
        state.current_hp = if state.current_hp > burn_damage {
            state.current_hp - burn_damage
        } else {
            0
        };
        push_event(
            events,
            event_count,
            TurnEvent::BurnTick { champion_id: state.id, damage: burn_damage },
        );
        state.burn_turns -= 1;
        if state.current_hp == 0 {
            state.is_ko = true;
            push_event(events, event_count, TurnEvent::Ko { champion_id: state.id });
        }
    }
}

/// Execute one chosen ability of `actor_champ` (whose mutable state is
/// `actor_state`) against `target_champ`/`target_state`.
fn execute_action(
    actor_champ: &Champion,
    actor_state: &mut ChampionState,
    action: &TurnAction,
    target_champ: &Champion,
    target_state: &mut ChampionState,
    events: &mut [TurnEvent; MAX_EVENTS],
    event_count: &mut u8,
)
    requires
        champion_wf(actor_champ@),
        champion_wf(target_champ@),
        action.ability_index < 2,
        state_wf(old(actor_state)@),
        state_wf(old(target_state)@),
        !old(actor_state).is_ko,
        !old(target_state).is_ko,
        spec_apply_action(
            actor_champ@,
            old(actor_state)@,
            actor_champ@.abilities[action.ability_index as int],
            target_champ@,
            old(target_state)@,
        ).is_some(),
        *old(event_count) as int + 3 <= MAX_EVENTS,
    ensures
        state_wf(final(actor_state)@),
        state_wf(final(target_state)@),
        final(actor_state)@.id == old(actor_state)@.id,
        final(actor_state)@.max_hp == old(actor_state)@.max_hp,
        final(target_state)@.id == old(target_state)@.id,
        final(target_state)@.max_hp == old(target_state)@.max_hp,
        ({
            let (a1, t1, evs) = spec_apply_action(
                actor_champ@,
                old(actor_state)@,
                actor_champ@.abilities[action.ability_index as int],
                target_champ@,
                old(target_state)@,
            ).unwrap();
            &&& final(actor_state)@ == a1
            &&& final(target_state)@ == t1
            &&& *final(event_count) == *old(event_count) + evs.len()
            &&& evs.len() <= 3
            &&& (forall|j: int| 0 <= j < *old(event_count) ==> final(events)@[j]
                == #[trigger] old(events)@[j])
            &&& (forall|j: int| 0 <= j < evs.len() ==> final(events)@[*old(event_count) + j]
                == #[trigger] evs[j])
        }),
{
    let ability = &actor_champ.abilities[action.ability_index as usize];
    proof {
        if action.ability_index == 0 {
            assert(ability_wf(actor_champ@.abilities[0]));
        } else {
            assert(ability_wf(actor_champ@.abilities[1]));
        }
    }

    match ability.ability_type {
        AbilityType::Damage => {
            let (damage, mult_x100) =
                calculate_damage(actor_champ, target_champ, target_state, ability, actor_state);
            target_state.current_hp = if target_state.current_hp > damage {
                target_state.current_hp - damage
            } else {
                0
            };
            actor_state.total_damage_dealt =
                if actor_state.total_damage_dealt <= u32::MAX - damage {
                    actor_state.total_damage_dealt + damage
                } else {
                    u32::MAX
                };
            push_event(
                events,
                event_count,
                TurnEvent::Attack {
                    attacker_id: actor_champ.id,
                    defender_id: target_champ.id,
                    damage,
                    mult_x100,
                },
            );
            if target_state.current_hp == 0 {
                target_state.is_ko = true;
                push_event(events, event_count, TurnEvent::Ko { champion_id: target_champ.id });
            }
        },
        AbilityType::DamageDot => {
            let (damage, mult_x100) =
                calculate_damage(actor_champ, target_champ, target_state, ability, actor_state);
            target_state.current_hp = if target_state.current_hp > damage {
                target_state.current_hp - damage
            } else {
                0
            };
            actor_state.total_damage_dealt =
                if actor_state.total_damage_dealt <= u32::MAX - damage {
                    actor_state.total_damage_dealt + damage
                } else {
                    u32::MAX
                };
            push_event(
                events,
                event_count,
                TurnEvent::Attack {
                    attacker_id: actor_champ.id,
                    defender_id: target_champ.id,
                    damage,
                    mult_x100,
                },
            );
            if target_state.current_hp == 0 {
                target_state.is_ko = true;
                push_event(events, event_count, TurnEvent::Ko { champion_id: target_champ.id });
            }
            if ability.applies_burn && ability.duration > 0 && !target_state.is_ko {
                target_state.burn_turns = ability.duration;
                push_event(
                    events,
                    event_count,
                    TurnEvent::BurnApplied {
                        target_id: target_champ.id,
                        duration: ability.duration,
                    },
                );
            }
        },
        AbilityType::Heal => {
            let old_hp = actor_state.current_hp;
            let new_hp = if old_hp + ability.heal_amount > actor_state.max_hp {
                actor_state.max_hp
            } else {
                old_hp + ability.heal_amount
            };
            actor_state.current_hp = new_hp;
            push_event(
                events,
                event_count,
                TurnEvent::Heal {
                    champion_id: actor_champ.id,
                    amount: new_hp - old_hp,
                    new_hp,
                },
            );
        },
        AbilityType::Buff => {
            if ability.stat_value > 0 && ability.duration > 0 {
                let slot = BuffSlot {
                    stat: ability.stat,
                    value: ability.stat_value,
                    turns_remaining: ability.duration,
                    is_debuff: false,
                    active: true,
                };
                assert(spec_insert_buff(actor_state@, slot).is_some());
                assert(spec_first_free(actor_state@.buffs) >= 0);
                insert_buff(actor_state, slot);
                push_event(
                    events,
                    event_count,
                    TurnEvent::Buff {
                        champion_id: actor_champ.id,
                        stat: ability.stat,
                        value: ability.stat_value,
                        duration: ability.duration,
                    },
                );
            }
        },
        AbilityType::Debuff => {
            if ability.stat_value > 0 && ability.duration > 0 {
                let slot = BuffSlot {
                    stat: ability.stat,
                    value: ability.stat_value,
                    turns_remaining: ability.duration,
                    is_debuff: true,
                    active: true,
                };
                assert(spec_insert_buff(target_state@, slot).is_some());
                assert(spec_first_free(target_state@.buffs) >= 0);
                insert_buff(target_state, slot);
                push_event(
                    events,
                    event_count,
                    TurnEvent::Debuff {
                        target_id: target_champ.id,
                        stat: ability.stat,
                        value: ability.stat_value,
                        duration: ability.duration,
                    },
                );
            }
        },
    }
}

/// Resolve a single combat round between two champions.
///
/// Pure in its four inputs: the result is exactly
/// `spec_resolve_turn(state_a@, state_b@, *action_a, *action_b)`, so two calls
/// on identical inputs yield identical outputs. Both combatants must be alive
/// on entry, and the round must fit the buff arrays (see
/// [`crate::combat_model::lemma_resolve_turn_fits`]).
#[verifier::rlimit(100)]
#[verifier::spinoff_prover]
pub fn resolve_turn(
    state_a: &ChampionState,
    state_b: &ChampionState,
    action_a: &TurnAction,
    action_b: &TurnAction,
) -> (r: TurnResult)
    requires
        state_wf(state_a@),
        state_wf(state_b@),
        !state_a.is_ko,
        !state_b.is_ko,
        state_a.id < N_CHAMPIONS,
        state_b.id < N_CHAMPIONS,
        action_a.ability_index < 2,
        action_b.ability_index < 2,
        spec_resolve_turn(state_a@, state_b@, *action_a, *action_b).is_some(),
    ensures
        ({
            let (ra, rb, evs) = spec_resolve_turn(state_a@, state_b@, *action_a, *action_b).unwrap();
            &&& r.state_a@ == ra
            &&& r.state_b@ == rb
            &&& state_wf(ra)
            &&& state_wf(rb)
            &&& ra.id == state_a@.id
            &&& rb.id == state_b@.id
            &&& ra.max_hp == state_a@.max_hp
            &&& rb.max_hp == state_b@.max_hp
            &&& r.event_count == evs.len()
            &&& evs.len() <= MAX_EVENTS
            &&& (forall|i: int| 0 <= i < evs.len() ==> r.events@[i] == #[trigger] evs[i])
        }),
{
    let mut a = *state_a;
    let mut b = *state_b;

    let champ_a = get_champion(a.id);
    let champ_b = get_champion(b.id);

    let empty_event = TurnEvent::Empty;
    let mut events: [TurnEvent; MAX_EVENTS] = [
        empty_event, empty_event, empty_event, empty_event,
        empty_event, empty_event, empty_event, empty_event,
        empty_event, empty_event, empty_event, empty_event,
        empty_event, empty_event, empty_event, empty_event,
    ];
    let mut event_count: u8 = 0;

    let speed_a = champ_a.speed + sum_buffs(&a, StatType::Speed);
    let speed_b = champ_b.speed + sum_buffs(&b, StatType::Speed);

    let a_goes_first = speed_a > speed_b || (speed_a == speed_b && champ_a.id <= champ_b.id);
    assert(a_goes_first == spec_a_goes_first(state_a@, state_b@));

    let ghost ca = champ_a@;
    let ghost cb = champ_b@;
    let ghost ability_a = ca.abilities[action_a.ability_index as int];
    let ghost ability_b = cb.abilities[action_b.ability_index as int];
    let ghost mut acc: Seq<TurnEvent> = Seq::empty();

    if a_goes_first {
        let ghost (a1, b1, ev1) = spec_apply_action(ca, a@, ability_a, cb, b@).unwrap();
        execute_action(&champ_a, &mut a, action_a, &champ_b, &mut b, &mut events, &mut event_count);
        proof {
            acc = ev1;
        }
        if !b.is_ko {
            let ghost (b2, a2, ev2) = spec_apply_action(cb, b@, ability_b, ca, a@).unwrap();
            execute_action(&champ_b, &mut b, action_b, &champ_a, &mut a, &mut events, &mut event_count);
            proof {
                acc = acc + ev2;
                assert(forall|j: int| 0 <= j < acc.len() ==> events@[j] == #[trigger] acc[j]);
            }
        }
    } else {
        let ghost (b1, a1, ev1) = spec_apply_action(cb, b@, ability_b, ca, a@).unwrap();
        execute_action(&champ_b, &mut b, action_b, &champ_a, &mut a, &mut events, &mut event_count);
        proof {
            acc = ev1;
        }
        if !a.is_ko {
            let ghost (a2, b2, ev2) = spec_apply_action(ca, a@, ability_a, cb, b@).unwrap();
            execute_action(&champ_a, &mut a, action_a, &champ_b, &mut b, &mut events, &mut event_count);
            proof {
                acc = acc + ev2;
                assert(forall|j: int| 0 <= j < acc.len() ==> events@[j] == #[trigger] acc[j]);
            }
        }
    }

    assert(event_count == acc.len() && acc.len() <= 6);
    assert(forall|j: int| 0 <= j < acc.len() ==> events@[j] == #[trigger] acc[j]);

    let ghost (a3, eva) = spec_burn_tick(a@);
    process_burn_tick(&mut a, &mut events, &mut event_count);
    proof {
        acc = acc + eva;
        assert(forall|j: int| 0 <= j < acc.len() ==> events@[j] == #[trigger] acc[j]);
    }
    let ghost (b3, evb) = spec_burn_tick(b@);
    process_burn_tick(&mut b, &mut events, &mut event_count);
    proof {
        acc = acc + evb;
        assert(forall|j: int| 0 <= j < acc.len() ==> events@[j] == #[trigger] acc[j]);
    }

    tick_buffs(&mut a);
    tick_buffs(&mut b);

    proof {
        let (ra, rb, evs) = spec_resolve_turn(state_a@, state_b@, *action_a, *action_b).unwrap();
        assert(acc =~= evs);
        assert(a@ == ra);
        assert(b@ == rb);
    }

    TurnResult { state_a: a, state_b: b, events, event_count }
}

/// Initial per-match state of a champion: full hit points, no modifiers, no
/// burn, and no knockout.
pub open spec fn spec_init_state(id: int) -> crate::types::ChampionStateView {
    crate::types::ChampionStateView {
        id: id,
        current_hp: spec_champion(id).hp,
        max_hp: spec_champion(id).hp,
        buffs: Seq::new(MAX_BUFFS as nat, |i: int| spec_empty_buff()),
        buff_count: 0,
        burn_turns: 0,
        is_ko: false,
        total_damage_dealt: 0,
    }
}

/// The initial state of every catalog champion is well formed.
pub proof fn lemma_init_state_wf(id: int)
    requires
        0 <= id < N_CHAMPIONS as int,
    ensures
        state_wf(spec_init_state(id)),
{
    crate::champions::lemma_catalog_wf(id);
    let s = spec_init_state(id);
    crate::combat_model::lemma_count_none_active(s.buffs, s.buffs.len() as int);
}

/// Initialize champion combat state from its catalog entry.
pub fn init_champion_state(champion_id: u8) -> (r: ChampionState)
    requires
        champion_id < N_CHAMPIONS,
    ensures
        r@ == spec_init_state(champion_id as int),
        state_wf(r@),
{
    let champ = get_champion(champion_id);
    let e = BuffSlot::empty();
    let r = ChampionState {
        id: champion_id,
        current_hp: champ.hp,
        max_hp: champ.hp,
        buffs: [e, e, e, e, e, e, e, e],
        buff_count: 0,
        burn_turns: 0,
        is_ko: false,
        total_damage_dealt: 0,
    };
    proof {
        lemma_init_state_wf(champion_id as int);
        assert(r@.buffs =~= spec_init_state(champion_id as int).buffs);
        assert(r@ =~= spec_init_state(champion_id as int));
    }
    r
}

/// Count the active buff slots of a combatant.
pub fn count_active_buffs(state: &ChampionState) -> (n: u8)
    ensures
        n == count_active(state@.buffs),
        n <= MAX_BUFFS,
{
    proof {
        lemma_count_active_le(state@.buffs, state@.buffs.len() as int);
    }
    let mut n: u8 = 0;
    for i in 0..MAX_BUFFS
        invariant
            n == count_active_prefix(state@.buffs, i as int),
            n <= i,
    {
        if state.buffs[i].active {
            n += 1;
        }
    }
    n
}

/// Whether all three champions of a team are knocked out.
pub fn is_team_eliminated(states: &[ChampionState; 3]) -> (r: bool)
    ensures
        r == (states@[0].is_ko && states@[1].is_ko && states@[2].is_ko),
{
    states[0].is_ko && states[1].is_ko && states[2].is_ko
}

} // verus!
