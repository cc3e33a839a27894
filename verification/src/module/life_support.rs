use vstd::prelude::*;

verus! {

/// Slots the life support unit consumes.
pub const LIFE_SUPPORT_SLOT_COST: usize = 2;

/// A standard life support unit.
#[derive(Clone, Copy, PartialEq, Eq, Structural, Debug)]
pub struct StandardLifeSupport;

/// An advanced life support unit.
#[derive(Clone, Copy, PartialEq, Eq, Structural, Debug)]
pub struct AdvancedLifeSupport;

impl StandardLifeSupport {
    pub fn new() -> (l: StandardLifeSupport)
        ensures
            l == StandardLifeSupport,
    {
        StandardLifeSupport
    }
}

impl AdvancedLifeSupport {
    pub fn new() -> (l: AdvancedLifeSupport)
        ensures
            l == AdvancedLifeSupport,
    {
        AdvancedLifeSupport
    }
}

/// The installed life support unit, tagged by variant.
#[derive(Clone, Copy, PartialEq, Eq, Structural, Debug)]
pub enum LifeSupport {
    Standard(StandardLifeSupport),
    Advanced(AdvancedLifeSupport),
}

impl LifeSupport {
    /// Mass of this life support unit.
    pub open spec fn mass(self) -> int {
        match self {
            LifeSupport::Standard(_) => 80,
            LifeSupport::Advanced(_) => 70,
        }
    }

    /// Power this life support unit draws.
    pub open spec fn power_draw(self) -> int {
        match self {
            LifeSupport::Standard(_) => 75,
            LifeSupport::Advanced(_) => 50,
        }
    }

    /// Name of this life support unit's variant.
    pub fn get_type(&self) -> (t: &'static str)
        ensures
            self is Standard ==> t@ == "Standard"@,
            self is Advanced ==> t@ == "Advanced"@,
    {
        match self {
            LifeSupport::Standard(_) => "Standard",
            LifeSupport::Advanced(_) => "Advanced",
        }
    }

    /// Slots this life support unit consumes.
    pub fn get_slot_cost(&self) -> (c: usize)
        ensures
            c == LIFE_SUPPORT_SLOT_COST,
    {
        LIFE_SUPPORT_SLOT_COST
    }

    pub fn get_mass(&self) -> (m: i32)
        ensures
            m as int == self.mass(),
    {
        match self {
            LifeSupport::Standard(_) => 80,
            LifeSupport::Advanced(_) => 70,
        }
    }

    pub fn get_power_draw(&self) -> (p: i32)
        ensures
            p as int == self.power_draw(),
    {
        match self {
            LifeSupport::Standard(_) => 75,
            LifeSupport::Advanced(_) => 50,
        }
    }
}

} // verus!
