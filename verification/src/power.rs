//! The electrical supply of the channels.

use vstd::prelude::*;

verus! {

/// A bus of the direct-current network that can supply a channel.
#[derive(Clone, Copy, Debug, PartialEq, Eq, Structural)]
pub enum ElectricalBusType {
    /// One of the numbered normal buses.
    DirectCurrent(u8),
    /// The essential bus.
    DirectCurrentEssential,
}

/// Something that knows which buses carry power.
///
/// `spec_is_powered` is what the contracts of this crate speak of;
/// `is_powered` computes it.
pub trait ElectricalBuses {
    spec fn spec_is_powered(&self, bus: ElectricalBusType) -> bool;

    /// Whether `bus` carries power.
    fn is_powered(&self, bus: ElectricalBusType) -> (b: bool)
        ensures
            b == self.spec_is_powered(bus),
    ;
}

/// The state of the buses that supply the control computers, as sampled at
/// one moment.
#[derive(Clone, Copy, Debug, PartialEq, Eq, Structural)]
pub struct BusStates {
    pub direct_current_1: bool,
    pub direct_current_2: bool,
    pub direct_current_essential: bool,
}

impl ElectricalBuses for BusStates {
    /// The sampled state of the bus; a numbered bus other than 1 and 2 is
    /// taken to carry no power.
    open spec fn spec_is_powered(&self, bus: ElectricalBusType) -> bool {
        match bus {
            ElectricalBusType::DirectCurrent(n) => {
                if n == 1 {
                    self.direct_current_1
                } else if n == 2 {
                    self.direct_current_2
                } else {
                    false
                }
            },
            ElectricalBusType::DirectCurrentEssential => self.direct_current_essential,
        }
    }

    fn is_powered(&self, bus: ElectricalBusType) -> (b: bool)
        ensures
            b == self.spec_is_powered(bus),
    {
        match bus {
            ElectricalBusType::DirectCurrent(1) => self.direct_current_1,
            ElectricalBusType::DirectCurrent(2) => self.direct_current_2,
            ElectricalBusType::DirectCurrent(_) => false,
            ElectricalBusType::DirectCurrentEssential => self.direct_current_essential,
        }
    }
}

} // verus!
