//! Single pins: what it takes to set one and to read one, and the handles that
//! `split` gives out.

use crate::port::BusWrite;
use crate::{Error, PinFlag};
use vstd::prelude::*;

pub mod pcf8574;
pub mod pcf8575;

verus! {

/// Set a pin high or low
pub trait SetPin<E> {
    /// Set a pin high: hands back the write of the outputs last set with
    /// this pin high. `written` takes its outcome.
    fn set_pin_high(&mut self, pin_flag: PinFlag) -> Result<BusWrite, Error<E>>;

    /// Set a pin low: hands back the write of the outputs last set with this
    /// pin low. `written` takes its outcome.
    fn set_pin_low(&mut self, pin_flag: PinFlag) -> Result<BusWrite, Error<E>>;
}

/// Read if a pin is high or low
pub trait GetPin<E> {
    /// The bytes that hold the status of all pins.
    type Sample;

    /// Reads a pin and returns whether it is high: takes the outcome of the
    /// read that follows `get` for this pin.
    fn is_pin_high(&mut self, pin_flag: PinFlag, sampled: Result<Self::Sample, E>) -> Result<
        bool,
        Error<E>,
    >;

    /// Reads a pin and returns whether it is low: takes the outcome of the
    /// read that follows `get` for this pin.
    fn is_pin_low(&mut self, pin_flag: PinFlag, sampled: Result<Self::Sample, E>) -> Result<
        bool,
        Error<E>,
    >;
}

/// One pin of an expander: the expander, which the handle borrows but never
/// owns, and the flag of the pin.
#[derive(Debug)]
pub struct Pin<'a, IC> {
    ic: &'a IC,
    flag: PinFlag,
}

impl<'a, IC> Pin<'a, IC> {
    /// The expander that the pin belongs to.
    pub closed spec fn spec_expander(&self) -> &'a IC {
        self.ic
    }

    /// The flag of the pin.
    pub closed spec fn spec_flag(&self) -> PinFlag {
        self.flag
    }

    /// The handle on the pin `flag` of `ic`.
    pub(crate) fn new(ic: &'a IC, flag: PinFlag) -> (pin: Self)
        ensures
            pin.spec_expander() == ic,
            pin.spec_flag() == flag,
    {
        Pin { ic, flag }
    }

    /// The expander that the pin belongs to.
    pub fn expander(&self) -> (ic: &'a IC)
        ensures
            ic == self.spec_expander(),
    {
        self.ic
    }

    /// The flag of the pin, for the expander's operations on single pins.
    pub fn flag(&self) -> (flag: PinFlag)
        ensures
            flag == self.spec_flag(),
    {
        self.flag
    }
}

} // verus!
