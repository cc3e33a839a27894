use vstd::prelude::*;

verus! {

/// Slots the bridge consumes.
pub const BRIDGE_SLOT_COST: usize = 1;

/// An explorer-class bridge unit.
#[derive(Clone, Copy, PartialEq, Eq, Structural, Debug)]
pub struct ExplorerBridge;

/// A command-class bridge unit.
#[derive(Clone, Copy, PartialEq, Eq, Structural, Debug)]
pub struct CommandBridge;

impl ExplorerBridge {
    pub fn new() -> (b: ExplorerBridge)
        ensures
            b == ExplorerBridge,
    {
        ExplorerBridge
    }
}

impl CommandBridge {
    pub fn new() -> (b: CommandBridge)
        ensures
            b == CommandBridge,
    {
        CommandBridge
    }
}

/// The installed bridge, tagged by variant.
#[derive(Clone, Copy, PartialEq, Eq, Structural, Debug)]
pub enum Bridge {
    Explorer(ExplorerBridge),
    Command(CommandBridge),
}

impl Bridge {
    /// Mass of this bridge.
    pub open spec fn mass(self) -> int {
        match self {
            Bridge::Explorer(_) => 50,
            Bridge::Command(_) => 60,
        }
    }

    /// Power this bridge draws.
    pub open spec fn power_draw(self) -> int {
        match self {
            Bridge::Explorer(_) => 75,
            Bridge::Command(_) => 75,
        }
    }

    /// Name of this bridge's variant.
    pub fn get_type(&self) -> (t: &'static str)
        ensures
            self is Explorer ==> t@ == "Explorer"@,
            self is Command ==> t@ == "Command"@,
    {
        match self {
            Bridge::Explorer(_) => "Explorer",
            Bridge::Command(_) => "Command",
        }
    }

    /// Slots this bridge consumes.
    pub fn get_slot_cost(&self) -> (c: usize)
        ensures
            c == BRIDGE_SLOT_COST,
    {
        BRIDGE_SLOT_COST
    }

    pub fn get_mass(&self) -> (m: i32)
        ensures
            m as int == self.mass(),
    {
        match self {
            Bridge::Explorer(_) => 50,
            Bridge::Command(_) => 60,
        }
    }

    pub fn get_power_draw(&self) -> (p: i32)
        ensures
            p as int == self.power_draw(),
    {
        match self {
            Bridge::Explorer(_) => 75,
            Bridge::Command(_) => 75,
        }
    }
}

} // verus!
