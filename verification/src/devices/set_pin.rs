//! Setting single pins.
//!
//! A pin is set by writing the outputs last set again, with the bit of the
//! pin changed and every other bit as it was.

use crate::devices::low_byte;
use crate::devices::pcf8574::{lower_port, Expander8};
use crate::devices::pcf8575::Pcf8575;
use crate::pins::SetPin;
use crate::port::{begun_view, BusWrite, Port};
use crate::{Error, PinFlag};
use vstd::prelude::*;

verus! {

impl Port<u8> {
    /// The outputs last set, with the pins in `pin_flag` high. Pins that the
    /// device does not have select nothing.
    pub open spec fn with_high(self, pin_flag: PinFlag) -> u8 {
        self.last_set_mask | low_byte(pin_flag.mask)
    }

    /// The outputs last set, with the pins in `pin_flag` low. Pins that the
    /// device does not have select nothing.
    pub open spec fn with_low(self, pin_flag: PinFlag) -> u8 {
        self.last_set_mask & !low_byte(pin_flag.mask)
    }
}

impl Port<u16> {
    /// The outputs last set, with the pins in `pin_flag` high.
    pub open spec fn with_high(self, pin_flag: PinFlag) -> u16 {
        self.last_set_mask | pin_flag.mask
    }

    /// The outputs last set, with the pins in `pin_flag` low.
    pub open spec fn with_low(self, pin_flag: PinFlag) -> u16 {
        self.last_set_mask & !pin_flag.mask
    }
}

impl<I2C, E, const DEFAULT_ADDRESS: u8> SetPin<E> for Expander8<I2C, DEFAULT_ADDRESS> {
    fn set_pin_high(&mut self, pin_flag: PinFlag) -> (begun: Result<BusWrite, Error<E>>)
        ensures
            final(self).bus() == old(self).bus(),
            (final(self)@, begun_view::<E>(begun)) == old(self)@.spec_set::<E>(
                old(self)@.with_high(pin_flag),
            ),
    {
        let new_mask: u8 = self.last_set_mask() | lower_port(pin_flag);
        self.set(new_mask)
    }

    fn set_pin_low(&mut self, pin_flag: PinFlag) -> (begun: Result<BusWrite, Error<E>>)
        ensures
            final(self).bus() == old(self).bus(),
            (final(self)@, begun_view::<E>(begun)) == old(self)@.spec_set::<E>(
                old(self)@.with_low(pin_flag),
            ),
    {
        let new_mask: u8 = self.last_set_mask() & !lower_port(pin_flag);
        self.set(new_mask)
    }
}

impl<I2C, E> SetPin<E> for Pcf8575<I2C> {
    fn set_pin_high(&mut self, pin_flag: PinFlag) -> (begun: Result<BusWrite, Error<E>>)
        ensures
            final(self).bus() == old(self).bus(),
            (final(self)@, begun_view::<E>(begun)) == old(self)@.spec_set::<E>(
                old(self)@.with_high(pin_flag),
            ),
    {
        let new_mask: u16 = self.last_set_mask() | pin_flag.mask;
        self.set(new_mask)
    }

    fn set_pin_low(&mut self, pin_flag: PinFlag) -> (begun: Result<BusWrite, Error<E>>)
        ensures
            final(self).bus() == old(self).bus(),
            (final(self)@, begun_view::<E>(begun)) == old(self)@.spec_set::<E>(
                old(self)@.with_low(pin_flag),
            ),
    {
        let new_mask: u16 = self.last_set_mask() & !pin_flag.mask;
        self.set(new_mask)
    }
}

} // verus!
