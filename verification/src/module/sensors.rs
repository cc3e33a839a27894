use vstd::prelude::*;

verus! {

/// Slots the sensor suite consumes.
pub const SENSORS_SLOT_COST: usize = 1;

/// A basic sensor suite.
#[derive(Clone, Copy, PartialEq, Eq, Structural, Debug)]
pub struct BasicSensors;

/// An advanced sensor suite.
#[derive(Clone, Copy, PartialEq, Eq, Structural, Debug)]
pub struct AdvancedSensors;

impl BasicSensors {
    pub fn new() -> (s: BasicSensors)
        ensures
            s == BasicSensors,
    {
        BasicSensors
    }
}

impl AdvancedSensors {
    pub fn new() -> (s: AdvancedSensors)
        ensures
            s == AdvancedSensors,
    {
        AdvancedSensors
    }
}

/// The installed sensor suite, tagged by variant.
#[derive(Clone, Copy, PartialEq, Eq, Structural, Debug)]
pub enum Sensors {
    Basic(BasicSensors),
    Advanced(AdvancedSensors),
}

impl Sensors {
    /// Mass of this sensor suite.
    pub open spec fn mass(self) -> int {
        match self {
            Sensors::Basic(_) => 30,
            Sensors::Advanced(_) => 35,
        }
    }

    /// Power this sensor suite draws.
    pub open spec fn power_draw(self) -> int {
        match self {
            Sensors::Basic(_) => 50,
            Sensors::Advanced(_) => 50,
        }
    }

    /// Name of this sensor suite's variant.
    pub fn get_type(&self) -> (t: &'static str)
        ensures
            self is Basic ==> t@ == "Basic"@,
            self is Advanced ==> t@ == "Advanced"@,
    {
        match self {
            Sensors::Basic(_) => "Basic",
            Sensors::Advanced(_) => "Advanced",
        }
    }

    /// Slots this sensor suite consumes.
    pub fn get_slot_cost(&self) -> (c: usize)
        ensures
            c == SENSORS_SLOT_COST,
    {
        SENSORS_SLOT_COST
    }

    pub fn get_mass(&self) -> (m: i32)
        ensures
            m as int == self.mass(),
    {
        match self {
            Sensors::Basic(_) => 30,
            Sensors::Advanced(_) => 35,
        }
    }

    pub fn get_power_draw(&self) -> (p: i32)
        ensures
            p as int == self.power_draw(),
    {
        match self {
            Sensors::Basic(_) => 50,
            Sensors::Advanced(_) => 50,
        }
    }
}

} // verus!
