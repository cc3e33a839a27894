use vstd::prelude::*;

verus! {

/// Slots the shield consumes.
pub const SHIELD_SLOT_COST: usize = 1;

/// A magnetic shield unit.
#[derive(Clone, Copy, PartialEq, Eq, Structural, Debug)]
pub struct MagneticShield;

/// A phase shield unit.
#[derive(Clone, Copy, PartialEq, Eq, Structural, Debug)]
pub struct PhaseShield;

impl MagneticShield {
    pub fn new() -> (s: MagneticShield)
        ensures
            s == MagneticShield,
    {
        MagneticShield
    }
}

impl PhaseShield {
    pub fn new() -> (s: PhaseShield)
        ensures
            s == PhaseShield,
    {
        PhaseShield
    }
}

/// The installed shield, tagged by variant.
#[derive(Clone, Copy, PartialEq, Eq, Structural, Debug)]
pub enum Shield {
    Magnetic(MagneticShield),
    Phase(PhaseShield),
}

impl Shield {
    /// Mass of this shield.
    pub open spec fn mass(self) -> int {
        match self {
            Shield::Magnetic(_) => 40,
            Shield::Phase(_) => 30,
        }
    }

    /// Power this shield draws.
    pub open spec fn power_draw(self) -> int {
        match self {
            Shield::Magnetic(_) => 100,
            Shield::Phase(_) => 120,
        }
    }

    /// Name of this shield's variant.
    pub fn get_type(&self) -> (t: &'static str)
        ensures
            self is Magnetic ==> t@ == "Magnetic"@,
            self is Phase ==> t@ == "Phase"@,
    {
        match self {
            Shield::Magnetic(_) => "Magnetic",
            Shield::Phase(_) => "Phase",
        }
    }

    /// Slots this shield consumes.
    pub fn get_slot_cost(&self) -> (c: usize)
        ensures
            c == SHIELD_SLOT_COST,
    {
        SHIELD_SLOT_COST
    }

    pub fn get_mass(&self) -> (m: i32)
        ensures
            m as int == self.mass(),
    {
        match self {
            Shield::Magnetic(_) => 40,
            Shield::Phase(_) => 30,
        }
    }

    pub fn get_power_draw(&self) -> (p: i32)
        ensures
            p as int == self.power_draw(),
    {
        match self {
            Shield::Magnetic(_) => 100,
            Shield::Phase(_) => 120,
        }
    }
}

} // verus!
