use vstd::prelude::*;

verus! {

/// The structural frame. Exactly one is auto-added when construction starts;
/// it consumes no slots.
#[derive(Clone, Copy, PartialEq, Eq, Structural, Debug)]
pub struct Frame;

/// Mass of the standard frame.
pub open spec fn frame_mass() -> int {
    1000
}

impl Frame {
    pub fn new() -> (f: Frame)
        ensures
            f == Frame,
    {
        Frame
    }

    /// Mass of this frame.
    pub fn get_mass(&self) -> (m: i32)
        ensures
            m as int == frame_mass(),
    {
        1000
    }
}

} // verus!
