//! Reading single pins.
//!
//! A pin is read as all pins are, with `get` for the flag of the pin; of what
//! the chip sends, the bit of the pin is looked at.

use crate::devices::pcf8574::{lower_port, Expander8};
use crate::devices::pcf8575::Pcf8575;
use crate::devices::low_byte;
use crate::pins::GetPin;
use crate::port::Port;
use crate::{Error, PinFlag};
use vstd::prelude::*;

verus! {

impl Port<u8> {
    /// The outcome of the read that `get` asked for, looked at for the pins in
    /// `pin_flag`: whether any of them is high.
    pub open spec fn spec_is_pin_high<E>(self, pin_flag: PinFlag, sampled: Result<[u8; 1], E>) -> (
        Port<u8>,
        Result<bool, Error<E>>,
    ) {
        let (port, done) = self.spec_got(sampled);
        match done {
            Ok(status) => (port, Ok(status & low_byte(pin_flag.mask) != 0)),
            Err(e) => (port, Err(e)),
        }
    }

    /// The outcome of the read that `get` asked for, looked at for the pins in
    /// `pin_flag`: whether all of them are low.
    pub open spec fn spec_is_pin_low<E>(self, pin_flag: PinFlag, sampled: Result<[u8; 1], E>) -> (
        Port<u8>,
        Result<bool, Error<E>>,
    ) {
        let (port, done) = self.spec_got(sampled);
        match done {
            Ok(status) => (port, Ok(status & low_byte(pin_flag.mask) == 0)),
            Err(e) => (port, Err(e)),
        }
    }
}

impl Port<u16> {
    /// The outcome of the read that `get` asked for, looked at for the pins in
    /// `pin_flag`: whether any of them is high.
    pub open spec fn spec_is_pin_high<E>(self, pin_flag: PinFlag, sampled: Result<[u8; 2], E>) -> (
        Port<u16>,
        Result<bool, Error<E>>,
    ) {
        let (port, done) = self.spec_got(sampled);
        match done {
            Ok(status) => (port, Ok(status & pin_flag.mask != 0)),
            Err(e) => (port, Err(e)),
        }
    }

    /// The outcome of the read that `get` asked for, looked at for the pins in
    /// `pin_flag`: whether all of them are low.
    pub open spec fn spec_is_pin_low<E>(self, pin_flag: PinFlag, sampled: Result<[u8; 2], E>) -> (
        Port<u16>,
        Result<bool, Error<E>>,
    ) {
        let (port, done) = self.spec_got(sampled);
        match done {
            Ok(status) => (port, Ok(status & pin_flag.mask == 0)),
            Err(e) => (port, Err(e)),
        }
    }
}

impl<I2C, E, const DEFAULT_ADDRESS: u8> GetPin<E> for Expander8<I2C, DEFAULT_ADDRESS> {
    type Sample = [u8; 1];

    fn is_pin_high(&mut self, pin_flag: PinFlag, sampled: Result<[u8; 1], E>) -> (high: Result<
        bool,
        Error<E>,
    >)
        ensures
            final(self).bus() == old(self).bus(),
            (final(self)@, high) == old(self)@.spec_is_pin_high(pin_flag, sampled),
    {
        match self.sampled(sampled) {
            Ok(data) => Ok(data & lower_port(pin_flag) != 0),
            Err(e) => Err(e),
        }
    }

    fn is_pin_low(&mut self, pin_flag: PinFlag, sampled: Result<[u8; 1], E>) -> (low: Result<
        bool,
        Error<E>,
    >)
        ensures
            final(self).bus() == old(self).bus(),
            (final(self)@, low) == old(self)@.spec_is_pin_low(pin_flag, sampled),
    {
        match self.sampled(sampled) {
            Ok(data) => Ok(data & lower_port(pin_flag) == 0),
            Err(e) => Err(e),
        }
    }
}

impl<I2C, E> GetPin<E> for Pcf8575<I2C> {
    type Sample = [u8; 2];

    fn is_pin_high(&mut self, pin_flag: PinFlag, sampled: Result<[u8; 2], E>) -> (high: Result<
        bool,
        Error<E>,
    >)
        ensures
            final(self).bus() == old(self).bus(),
            (final(self)@, high) == old(self)@.spec_is_pin_high(pin_flag, sampled),
    {
        match self.sampled(sampled) {
            Ok(data) => Ok(data & pin_flag.mask != 0),
            Err(e) => Err(e),
        }
    }

    fn is_pin_low(&mut self, pin_flag: PinFlag, sampled: Result<[u8; 2], E>) -> (low: Result<
        bool,
        Error<E>,
    >)
        ensures
            final(self).bus() == old(self).bus(),
            (final(self)@, low) == old(self)@.spec_is_pin_low(pin_flag, sampled),
    {
        match self.sampled(sampled) {
            Ok(data) => Ok(data & pin_flag.mask == 0),
            Err(e) => Err(e),
        }
    }
}

} // verus!
