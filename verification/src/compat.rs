use vstd::prelude::*;

use crate::module::shield::Shield;

verus! {

/// The cross-component compatibility rule, evaluated only when a shield is
/// installed: a magnetic shield requires that no antimatter reactor has been
/// installed so far, a phase shield that no fusion reactor has. No other pair
/// of component kinds is constrained.
pub open spec fn shield_allowed(shield: Shield, fusion_present: bool, antimatter_present: bool) -> bool {
    match shield {
        Shield::Magnetic(_) => !antimatter_present,
        Shield::Phase(_) => !fusion_present,
    }
}

/// Whether `shield` may be installed given which reactor families are
/// present so far.
pub fn allowed(shield: &Shield, fusion_present: bool, antimatter_present: bool) -> (b: bool)
    ensures
        b == shield_allowed(*shield, fusion_present, antimatter_present),
{
    match shield {
        Shield::Magnetic(_) => !antimatter_present,
        Shield::Phase(_) => !fusion_present,
    }
}

/// Shield exclusivity: with exactly one reactor family present, exactly one
/// shield variant is compatible — the magnetic shield with fusion only, the
/// phase shield with antimatter only.
pub proof fn lemma_shield_exclusivity(shield: Shield, fusion_present: bool, antimatter_present: bool)
    ensures
        fusion_present && !antimatter_present ==> shield_allowed(
            shield,
            fusion_present,
            antimatter_present,
        ) == (shield is Magnetic),
        antimatter_present && !fusion_present ==> shield_allowed(
            shield,
            fusion_present,
            antimatter_present,
        ) == (shield is Phase),
        fusion_present && antimatter_present ==> !shield_allowed(
            shield,
            fusion_present,
            antimatter_present,
        ),
{
}

} // verus!
