//! The memory of the flaps lever.

use vstd::prelude::*;
use crate::sources::HandlePositionMemory;

verus! {

/// The detent of the flaps lever in this cycle and in the one before. Nothing
/// older is kept.
#[derive(Clone, Copy, Debug, PartialEq, Eq, Structural)]
pub struct FlapsHandle {
    position: u8,
    previous_position: u8,
}

impl FlapsHandle {
    /// A lever that stands in detent 0 and stood there before.
    pub fn new() -> (h: Self)
        ensures
            h.spec_position() == 0,
            h.spec_previous_position() == 0,
    {
        FlapsHandle { position: 0, previous_position: 0 }
    }

    /// Takes in the detent read in a new cycle: what was current becomes
    /// previous.
    pub fn read(&mut self, position: u8)
        ensures
            final(self).spec_position() == position,
            final(self).spec_previous_position() == old(self).spec_position(),
    {
        self.previous_position = self.position;
        self.position = position;
    }
}

impl HandlePositionMemory for FlapsHandle {
    closed spec fn spec_position(&self) -> u8 {
        self.position
    }

    closed spec fn spec_previous_position(&self) -> u8 {
        self.previous_position
    }

    fn position(&self) -> (p: u8)
        ensures
            p == self.spec_position(),
    {
        self.position
    }

    fn previous_position(&self) -> (p: u8)
        ensures
            p == self.spec_previous_position(),
    {
        self.previous_position
    }
}

} // verus!
