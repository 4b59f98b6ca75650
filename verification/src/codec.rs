//! Move codec: a round's chosen action travels as a single integer in
//! [1, 2 * N_CHAMPIONS], decoding bijectively to (champion id, ability index).

use vstd::prelude::*;
use crate::champions::N_CHAMPIONS;
use crate::types::TurnAction;

verus! {

/// Smallest encoded move value.
pub const MOVE_MIN: u32 = 1;

/// Largest encoded move value: two abilities for each catalog champion.
pub const MOVE_MAX: u32 = 16;

/// Encoded form of an action: champion_id * 2 + ability_index + 1.
pub open spec fn spec_encode_move(action: TurnAction) -> int {
    action.champion_id * 2 + action.ability_index + 1
}

/// Action encoded by `amount`: champion (amount-1) / 2, ability (amount-1) % 2.
pub open spec fn spec_decode_move(amount: int) -> TurnAction {
    TurnAction {
        champion_id: (((amount - 1) / 2) as u8),
        ability_index: (((amount - 1) % 2) as u8),
    }
}

/// Whether an action names a catalog champion and one of its two abilities.
pub open spec fn action_in_range(action: TurnAction) -> bool {
    action.champion_id < N_CHAMPIONS && action.ability_index < 2
}

/// Encode a turn action as a move value in [MOVE_MIN, MOVE_MAX].
pub fn encode_move(action: &TurnAction) -> (r: u32)
    requires
        action_in_range(*action),
    ensures
        r == spec_encode_move(*action),
        MOVE_MIN <= r <= MOVE_MAX,
        spec_decode_move(r as int) == *action,
{
    (action.champion_id as u32) * 2 + (action.ability_index as u32) + 1
}

/// Decode a move value in [MOVE_MIN, MOVE_MAX] back into a turn action.
pub fn decode_move(amount: u32) -> (r: TurnAction)
    requires
        MOVE_MIN <= amount <= MOVE_MAX,
    ensures
        r == spec_decode_move(amount as int),
        action_in_range(r),
        spec_encode_move(r) == amount,
{
    let value = amount - 1;
    TurnAction { champion_id: (value / 2) as u8, ability_index: (value % 2) as u8 }
}

/// Move encoding is a bijection, decoding side: every value in
/// [MOVE_MIN, MOVE_MAX] decodes to an in-range action that encodes back to the
/// same value.
pub proof fn lemma_encode_decode(v: int)
    requires
        MOVE_MIN as int <= v <= MOVE_MAX as int,
    ensures
        action_in_range(spec_decode_move(v)),
        spec_encode_move(spec_decode_move(v)) == v,
{
}

/// Move encoding is a bijection, encoding side: every in-range action encodes
/// to a value in [MOVE_MIN, MOVE_MAX] that decodes back to the same action.
pub proof fn lemma_decode_encode(action: TurnAction)
    requires
        action_in_range(action),
    ensures
        MOVE_MIN as int <= spec_encode_move(action) <= MOVE_MAX as int,
        spec_decode_move(spec_encode_move(action)) == action,
{
}

} // verus!
