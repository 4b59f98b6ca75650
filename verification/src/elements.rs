//! Elemental damage multiplier.

use vstd::prelude::*;
use crate::types::Element;

verus! {

/// The element that `e` has the advantage over.
pub open spec fn spec_element_beats(e: Element) -> Element {
    match e {
        Element::Fire => Element::Earth,
        Element::Earth => Element::Wind,
        Element::Wind => Element::Water,
        Element::Water => Element::Fire,
    }
}

/// Damage multiplier, scaled by 100: 150 when the attacker has the elemental
/// advantage, 67 when the defender has it, 100 otherwise.
pub open spec fn spec_type_multiplier(attacker: Element, defender: Element) -> u32 {
    if attacker == defender {
        100u32
    } else if spec_element_beats(attacker) == defender {
        150u32
    } else if spec_element_beats(defender) == attacker {
        67u32
    } else {
        100u32
    }
}

/// Elemental multiplier, scaled by 100 to stay in integers.
/// Same element gives 100, an advantage 150, a disadvantage 67, and the eight
/// remaining pairs 100.
pub fn get_type_multiplier(attacker: Element, defender: Element) -> (r: u32)
    ensures
        r == spec_type_multiplier(attacker, defender),
        attacker == defender ==> r == 100,
        spec_element_beats(attacker) == defender ==> r == 150,
        attacker != defender && spec_element_beats(defender) == attacker ==> r == 67,
{
    if attacker == defender {
        return 100;
    }

    let attacker_beats = match attacker {
        Element::Fire => Element::Earth,
        Element::Earth => Element::Wind,
        Element::Wind => Element::Water,
        Element::Water => Element::Fire,
    };

    let defender_beats = match defender {
        Element::Fire => Element::Earth,
        Element::Earth => Element::Wind,
        Element::Wind => Element::Water,
        Element::Water => Element::Fire,
    };

    if attacker_beats == defender {
        150
    } else if defender_beats == attacker {
        67
    } else {
        100
    }
}

} // verus!
