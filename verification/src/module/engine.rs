use vstd::prelude::*;

verus! {

/// Slots the engine consumes.
pub const ENGINE_SLOT_COST: usize = 2;

/// An ion engine unit.
#[derive(Clone, Copy, PartialEq, Eq, Structural, Debug)]
pub struct IonEngine;

/// A plasma engine unit.
#[derive(Clone, Copy, PartialEq, Eq, Structural, Debug)]
pub struct PlasmaEngine;

impl IonEngine {
    pub fn new() -> (e: IonEngine)
        ensures
            e == IonEngine,
    {
        IonEngine
    }
}

impl PlasmaEngine {
    pub fn new() -> (e: PlasmaEngine)
        ensures
            e == PlasmaEngine,
    {
        PlasmaEngine
    }
}

/// The installed engine, tagged by variant.
#[derive(Clone, Copy, PartialEq, Eq, Structural, Debug)]
pub enum Engine {
    Ion(IonEngine),
    Plasma(PlasmaEngine),
}

impl Engine {
    /// Mass of this engine.
    pub open spec fn mass(self) -> int {
        match self {
            Engine::Ion(_) => 100,
            Engine::Plasma(_) => 120,
        }
    }

    /// Power this engine draws.
    pub open spec fn power_draw(self) -> int {
        match self {
            Engine::Ion(_) => 250,
            Engine::Plasma(_) => 250,
        }
    }

    /// Thrust this engine delivers.
    pub open spec fn thrust(self) -> int {
        match self {
            Engine::Ion(_) => 500,
            Engine::Plasma(_) => 750,
        }
    }

    /// Name of this engine's variant.
    pub fn get_type(&self) -> (t: &'static str)
        ensures
            self is Ion ==> t@ == "Ion"@,
            self is Plasma ==> t@ == "Plasma"@,
    {
        match self {
            Engine::Ion(_) => "Ion",
            Engine::Plasma(_) => "Plasma",
        }
    }

    /// Slots this engine consumes.
    pub fn get_slot_cost(&self) -> (c: usize)
        ensures
            c == ENGINE_SLOT_COST,
    {
        ENGINE_SLOT_COST
    }

    pub fn get_mass(&self) -> (m: i32)
        ensures
            m as int == self.mass(),
    {
        match self {
            Engine::Ion(_) => 100,
            Engine::Plasma(_) => 120,
        }
    }

    pub fn get_power_draw(&self) -> (p: i32)
        ensures
            p as int == self.power_draw(),
    {
        match self {
            Engine::Ion(_) => 250,
            Engine::Plasma(_) => 250,
        }
    }

    pub fn get_thrust(&self) -> (t: i32)
        ensures
            t as int == self.thrust(),
    {
        match self {
            Engine::Ion(_) => 500,
            Engine::Plasma(_) => 750,
        }
    }
}

} // verus!
