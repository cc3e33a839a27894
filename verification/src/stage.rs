use vstd::prelude::*;

verus! {

/// The phase a blueprint is in. Each stage unlocks a disjoint set of legal
/// operations, and construction only ever moves forward through the stages.
#[derive(Clone, Copy, PartialEq, Eq, Structural, Debug)]
pub enum Stage {
    /// Fresh blueprint; the only legal operation is setting the frame.
    Initial,
    /// Core modules (reactors, engine, life support, bridge) are installed.
    CoreModulesInstallation,
    /// Optional modules (shield, sensors) are installed.
    OptionalModulesInstallation,
    /// Terminal, read-only stage; only report computation is legal.
    Finalization,
}

/// Position of a stage in the fixed forward order. Stage monotonicity is
/// stated as growth of this index.
pub open spec fn stage_index(s: Stage) -> int {
    match s {
        Stage::Initial => 0,
        Stage::CoreModulesInstallation => 1,
        Stage::OptionalModulesInstallation => 2,
        Stage::Finalization => 3,
    }
}

} // verus!
