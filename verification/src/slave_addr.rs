//! Slave address definition

use vstd::prelude::*;

verus! {

/// Possible slave addresses
#[derive(Debug, Clone, Copy, PartialEq, Eq, Structural)]
pub enum SlaveAddr {
    /// Default slave address
    Default,
    /// Alternative slave address providing bit values for A2, A1 and A0
    Alternative(bool, bool, bool),
}

/// The value that an address input contributes to the chip address when it
/// sits at bit position `position`.
pub open spec fn address_bit(level: bool, position: u8) -> u8 {
    if level {
        1u8 << position
    } else {
        0u8
    }
}

impl SlaveAddr {
    /// The chip address that this selection gives to a device whose address
    /// is `default` when all three address inputs are low.
    pub open spec fn spec_addr(self, default: u8) -> u8 {
        match self {
            SlaveAddr::Default => default,
            SlaveAddr::Alternative(a2, a1, a0) => {
                default | address_bit(a2, 2) | address_bit(a1, 1) | address_bit(a0, 0)
            },
        }
    }

    /// Resolves the chip address from the device's default address.
    pub fn addr(self, default: u8) -> (address: u8)
        ensures
            address == self.spec_addr(default),
    {
        match self {
            SlaveAddr::Default => default,
            SlaveAddr::Alternative(a2, a1, a0) => {
                let b2: u8 = if a2 { 4 } else { 0 };
                let b1: u8 = if a1 { 2 } else { 0 };
                let b0: u8 = if a0 { 1 } else { 0 };
                assert(1u8 << 2u8 == 4u8 && 1u8 << 1u8 == 2u8 && 1u8 << 0u8 == 1u8) by (bit_vector);
                default | b2 | b1 | b0
            },
        }
    }
}

impl Default for SlaveAddr {
    /// Default slave address
    fn default() -> (address: Self)
        ensures
            address == SlaveAddr::Default,
    {
        SlaveAddr::Default
    }
}

} // verus!
