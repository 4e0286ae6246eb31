//! Packets received by the GPU.
use vstd::prelude::*;

verus! {

/// A packet written to the GPU: to GP0 (rendering) or GP1 (display).
#[derive(Debug, Clone, Copy, PartialEq, Eq, Structural)]
pub enum Packet {
    Rendering(u32),
    Display(u32),
}

impl Packet {
    /// The word this packet carries.
    pub open spec fn spec_value(self) -> u32 {
        match self {
            Packet::Rendering(packet) => packet,
            Packet::Display(packet) => packet,
        }
    }

    /// Returns the word this packet carries.
    pub fn value(&self) -> (r: u32)
        ensures
            r == self.spec_value(),
    {
        match self {
            Packet::Rendering(packet) | Packet::Display(packet) => *packet,
        }
    }
}

} // verus!
