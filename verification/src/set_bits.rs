//! Setting bits of the outputs without a write where nothing would change.

use crate::devices::low_byte;
use crate::devices::pcf8574::{lower_port, Expander8};
use crate::port::{begun_if_any_view, some_write, BusWrite, Pending, Port, WriteView};
use crate::{Error, PinFlag};
use vstd::prelude::*;

verus! {

/// Set a number of bits high or low
pub trait SetBits<E> {
    /// Set a number of bits high: hands back the write of the outputs last
    /// set with these bits high, or nothing where they are high already.
    /// `written` takes the outcome of the write.
    fn set_bits_high(&mut self, bitmask: PinFlag) -> Result<Option<BusWrite>, Error<E>>;

    /// Set a number of bits low: hands back the write of the outputs last set
    /// with these bits low, or nothing where they are low already. `written`
    /// takes the outcome of the write.
    fn set_bits_low(&mut self, bitmask: PinFlag) -> Result<Option<BusWrite>, Error<E>>;
}

impl Port<u8> {
    /// Starting to set the outputs to `new_mask`, unless they are that already.
    pub open spec fn spec_set_changed<E>(self, new_mask: u8) -> (
        Port<u8>,
        Result<Option<WriteView>, Error<E>>,
    ) {
        if !self.idle() {
            (self, Err(Error::CouldNotAcquireDevice))
        } else if new_mask == self.last_set_mask {
            (self, Ok(None))
        } else {
            some_write(self.spec_set(new_mask))
        }
    }
}

// The type is PinFlag everywhere, for compatibility with the PCF8575: of a
// flag, the pins P0 to P7 count.
impl<I2C, E, const DEFAULT_ADDRESS: u8> SetBits<E> for Expander8<I2C, DEFAULT_ADDRESS> {
    fn set_bits_high(&mut self, bitmask: PinFlag) -> (begun: Result<Option<BusWrite>, Error<E>>)
        ensures
            final(self).bus() == old(self).bus(),
            (final(self)@, begun_if_any_view::<E>(begun)) == old(self)@.spec_set_changed::<E>(
                old(self)@.with_high(bitmask),
            ),
    {
        let new_mask: u8 = self.last_set_mask() | lower_port(bitmask);
        self.set_changed(new_mask)
    }

    fn set_bits_low(&mut self, bitmask: PinFlag) -> (begun: Result<Option<BusWrite>, Error<E>>)
        ensures
            final(self).bus() == old(self).bus(),
            (final(self)@, begun_if_any_view::<E>(begun)) == old(self)@.spec_set_changed::<E>(
                old(self)@.with_low(bitmask),
            ),
    {
        let new_mask: u8 = self.last_set_mask() & !lower_port(bitmask);
        self.set_changed(new_mask)
    }
}

impl<I2C, const DEFAULT_ADDRESS: u8> Expander8<I2C, DEFAULT_ADDRESS> {
    /// Sets the status of all I/O pins to `new_mask` unless that is their
    /// status already: a device that is held refuses, one whose outputs are
    /// `new_mask` has nothing to write, and any other hands back the write.
    fn set_changed<E>(&mut self, new_mask: u8) -> (begun: Result<Option<BusWrite>, Error<E>>)
        ensures
            final(self).bus() == old(self).bus(),
            (final(self)@, begun_if_any_view(begun)) == old(self)@.spec_set_changed::<E>(new_mask),
    {
        if !self.is_idle() {
            return Err(Error::CouldNotAcquireDevice);
        }
        if self.last_set_mask() == new_mask {
            return Ok(None);
        }
        match self.set(new_mask) {
            Ok(write) => Ok(Some(write)),
            Err(e) => Err(e),
        }
    }
}

/// Setting one pin to the state that it was last set to writes nothing, and
/// setting it to the other state takes one write, of the outputs last set with
/// the bit of that pin flipped and no other.
pub proof fn lemma_set_bits_writes_the_change<E>(port: Port<u8>, pin: PinFlag)
    requires
        port.idle(),
        pin.single(),
        pin.fits_byte(),
    ensures
        ({
            let bit = low_byte(pin.mask);
            let flipped = port.last_set_mask ^ bit;
            let nothing = (port, Ok::<Option<WriteView>, Error<E>>(None));
            let one_write = (
                port.held_by(Pending::Output { mask: flipped }),
                Ok::<Option<WriteView>, Error<E>>(
                    Some(WriteView { address: port.address, bytes: seq![flipped] }),
                ),
            );
            let high = port.spec_set_changed::<E>(port.with_high(pin));
            let low = port.spec_set_changed::<E>(port.with_low(pin));
            if port.last_set_mask & bit != 0 {
                high == nothing && low == one_write
            } else {
                high == one_write && low == nothing
            }
        }),
{
    let last: u8 = port.last_set_mask;
    let bit: u8 = low_byte(pin.mask);
    let mask: u16 = pin.mask;
    assert(bit != 0 && bit & ((bit - 1) as u8) == 0) by (bit_vector)
        requires
            mask != 0 && mask & ((mask - 1) as u16) == 0,
            mask <= 0xff,
            bit == (mask % 256) as u8,
    ;
    assert(last & bit != 0 ==> (last | bit == last && last & !bit == last ^ bit && last & !bit
        != last)) by (bit_vector)
        requires
            bit != 0 && bit & ((bit - 1) as u8) == 0,
    ;
    assert(last & bit == 0 ==> (last & !bit == last && last | bit == last ^ bit && last | bit
        != last)) by (bit_vector)
        requires
            bit != 0 && bit & ((bit - 1) as u8) == 0,
    ;
}

} // verus!
