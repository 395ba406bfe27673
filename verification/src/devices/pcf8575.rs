//! The PCF8575: sixteen pins, P0 to P7 in the first byte on the wire and P10 to
//! P17 in the second.

use crate::devices::{u16_to_u8_array, u8_array_to_u16, wire_order, word_of};
use crate::pins::pcf8575::Parts;
use crate::port::{
    begun_if_any_view, begun_view, some_write, BusRead, BusWrite, Pending, Port, WriteView,
};
use crate::{Error, PinFlag, SlaveAddr};
use vstd::prelude::*;
use vstd::slice::slice_to_vec;

verus! {

/// The address of a PCF8575 whose three address inputs are low.
pub const DEFAULT_ADDRESS: u8 = 0b010_0000;

/// The number of bytes that hold the state of all pins.
pub const WORD_BYTES: usize = 2;

/// The word that the last two bytes of `data` stand for.
pub open spec fn last_word(data: Seq<u8>) -> u16
    recommends
        data.len() >= 2,
{
    word_of(data[data.len() - 2], data[data.len() - 1])
}

impl Port<u16> {
    /// The word that primes a read of the pins in `mask`: these pins high, so
    /// that they can be sensed, and every other pin as it was last set.
    pub open spec fn priming_word(self, mask: PinFlag) -> u16 {
        mask.mask | self.last_set_mask
    }

    /// Starting to set all pins to `bits`.
    pub open spec fn spec_set<E>(self, bits: u16) -> (Port<u16>, Result<WriteView, Error<E>>) {
        self.spec_output(bits, wire_order(bits))
    }

    /// Starting to write `data`, a run of words in wire order.
    pub open spec fn spec_write_array<E>(self, data: Seq<u8>) -> (
        Port<u16>,
        Result<Option<WriteView>, Error<E>>,
    ) {
        if data.len() == 0 {
            (self, Ok(None))
        } else if data.len() % 2 != 0 {
            (self, Err(Error::InvalidInputData))
        } else {
            some_write(self.spec_output(last_word(data), data))
        }
    }

    /// Starting to read the pins in `mask`.
    pub open spec fn spec_get<E>(self, mask: PinFlag) -> (Port<u16>, Result<WriteView, Error<E>>) {
        self.spec_prime(wire_order(self.priming_word(mask)), WORD_BYTES)
    }

    /// Starting to read the pins in `mask` over and over, `len` bytes in all.
    pub open spec fn spec_read_array<E>(self, mask: PinFlag, len: usize) -> (
        Port<u16>,
        Result<Option<WriteView>, Error<E>>,
    ) {
        if len == 0 {
            (self, Ok(None))
        } else if len % 2 != 0 {
            (self, Err(Error::InvalidInputData))
        } else {
            some_write(self.spec_prime(wire_order(self.priming_word(mask)), len))
        }
    }

    /// The outcome of the read that `get` asked for.
    pub open spec fn spec_got<E>(self, outcome: Result<[u8; 2], E>) -> (
        Port<u16>,
        Result<u16, Error<E>>,
    ) {
        let (port, done) = self.spec_sampled(outcome);
        match done {
            Ok(bits) => (port, Ok(word_of(bits[0], bits[1]))),
            Err(e) => (port, Err(e)),
        }
    }
}

/// A word in wire order, as the bytes of a write.
fn wire_bytes(word: u16) -> (bytes: Vec<u8>)
    ensures
        bytes@ == wire_order(word),
{
    let pair = u16_to_u8_array(word);
    let bytes = slice_to_vec(pair.as_slice());
    assert(bytes@ =~= wire_order(word));
    bytes
}

/// PCF8575 device driver
#[derive(Debug)]
pub struct Pcf8575<I2C> {
    /// The concrete I²C device implementation.
    pub(crate) i2c: I2C,
    /// The address, the outputs last set, and what the device is in the middle of.
    pub(crate) port: Port<u16>,
}

impl<I2C> View for Pcf8575<I2C> {
    type V = Port<u16>;

    closed spec fn view(&self) -> Port<u16> {
        self.port
    }
}

impl<I2C> Pcf8575<I2C> {
    /// The bus that the device keeps for its owner.
    pub closed spec fn bus(&self) -> I2C {
        self.i2c
    }

    /// Create new instance of the device: free, at the address that `address`
    /// selects, with all outputs taken to be low.
    pub fn new(i2c: I2C, address: SlaveAddr) -> (expander: Self)
        ensures
            expander.bus() == i2c,
            expander@ == (Port {
                address: address.spec_addr(DEFAULT_ADDRESS),
                last_set_mask: 0u16,
                pending: Pending::Idle,
            }),
    {
        Pcf8575 { i2c, port: Port::new(address.addr(DEFAULT_ADDRESS), 0) }
    }

    /// Destroy driver instance, return I²C bus instance.
    pub fn destroy(self) -> (i2c: I2C)
        ensures
            i2c == self.bus(),
    {
        self.i2c
    }

    /// The bus, for the owner to carry out a transfer on. What the owner does
    /// to the bus does nothing to the rest of the device.
    pub fn i2c(&mut self) -> (i2c: &mut I2C)
        ensures
            *i2c == old(self).bus(),
            final(self).bus() == *final(i2c),
            final(self)@ == old(self)@,
    {
        &mut self.i2c
    }

    /// The I²C device address.
    pub fn address(&self) -> (address: u8)
        ensures
            address == self@.address,
    {
        self.port.address
    }

    /// Whether the device is free: no operation holds it.
    pub fn is_idle(&self) -> (idle: bool)
        ensures
            idle == self@.idle(),
    {
        self.port.is_idle()
    }

    /// Last status set to output pins.
    pub fn last_set_mask(&self) -> (mask: u16)
        ensures
            mask == self@.last_set_mask,
    {
        self.port.last_set_mask
    }

    /// Split device into individual pins
    pub fn split(&self) -> (parts: Parts<'_, Pcf8575<I2C>>)
        ensures
            parts.of(self),
    {
        Parts::new(self)
    }

    /// Set the status of all I/O pins: hands back the write of the two bytes of
    /// `bits`, and holds the device until `written` has its outcome. Whatever
    /// was set before, the write is due.
    pub fn set<E>(&mut self, bits: u16) -> (begun: Result<BusWrite, Error<E>>)
        ensures
            final(self).bus() == old(self).bus(),
            (final(self)@, begun_view(begun)) == old(self)@.spec_set::<E>(bits),
    {
        self.port.output(bits, wire_bytes(bits))
    }

    /// Set the status of all I/O pins repeatedly by looping through each array element.
    /// The even elements correspond to the status of P0-P7 and the odd ones P10-P17.
    /// The number of elements in the data must be even.
    ///
    /// Hands back the one write of all of `data`, and holds the device until
    /// `written` has its outcome; the last two bytes are then the outputs.
    /// With no data there is nothing to write and nothing changes, and an odd
    /// number of bytes is refused before anything else happens.
    pub fn write_array<E>(&mut self, data: &[u8]) -> (begun: Result<Option<BusWrite>, Error<E>>)
        ensures
            final(self).bus() == old(self).bus(),
            (final(self)@, begun_if_any_view(begun)) == old(self)@.spec_write_array::<E>(data@),
            data@.len() == 0 ==> (begun matches Ok(None)) && final(self)@ == old(self)@,
            data@.len() % 2 == 1 ==> (begun matches Err(Error::InvalidInputData)) && final(self)@
                == old(self)@,
    {
        let len: usize = data.len();
        if len == 0 {
            return Ok(None);
        }
        if len % 2 != 0 {
            return Err(Error::InvalidInputData);
        }
        let last = u8_array_to_u16([data[len - 2], data[len - 1]]);
        match self.port.output(last, slice_to_vec(data)) {
            Ok(write) => Ok(Some(write)),
            Err(e) => Err(e),
        }
    }

    /// Get the status of the selected I/O pins.
    /// The mask of the pins to be read can be created with a combination of
    /// `PinFlag::P0` to `PinFlag::P17`.
    ///
    /// Hands back the priming write, which drives the selected pins high and
    /// every other pin as it was last set, and holds the device until `primed`
    /// and `sampled` have the outcomes. The outputs last set stay what they are.
    pub fn get<E>(&mut self, mask: &PinFlag) -> (begun: Result<BusWrite, Error<E>>)
        ensures
            final(self).bus() == old(self).bus(),
            (final(self)@, begun_view(begun)) == old(self)@.spec_get::<E>(*mask),
    {
        let word: u16 = mask.mask | self.port.last_set_mask;
        self.port.prime(wire_bytes(word), WORD_BYTES)
    }

    /// Get the status of the selected I/O pins repeatedly and put them in the
    /// provided array.
    /// The mask of the pins to be read can be created with a combination of
    /// `PinFlag::P0` to `PinFlag::P17`.
    /// The even elements correspond to the status of P0-P7 and the odd ones P10-P17.
    /// The number of elements in the data must be even.
    ///
    /// `len` is the length of the array. Hands back the priming write, and
    /// holds the device until `primed` and `filled` have the outcomes. With an
    /// empty array there is nothing to do and nothing is looked at, and an odd
    /// length is refused before anything else happens.
    pub fn read_array<E>(&mut self, mask: &PinFlag, len: usize) -> (begun: Result<
        Option<BusWrite>,
        Error<E>,
    >)
        ensures
            final(self).bus() == old(self).bus(),
            (final(self)@, begun_if_any_view(begun)) == old(self)@.spec_read_array::<E>(*mask, len),
            len == 0 ==> (begun matches Ok(None)) && final(self)@ == old(self)@,
            len % 2 == 1 ==> (begun matches Err(Error::InvalidInputData)) && final(self)@
                == old(self)@,
    {
        if len == 0 {
            return Ok(None);
        }
        if len % 2 != 0 {
            return Err(Error::InvalidInputData);
        }
        let word: u16 = mask.mask | self.port.last_set_mask;
        match self.port.prime(wire_bytes(word), len) {
            Ok(write) => Ok(Some(write)),
            Err(e) => Err(e),
        }
    }

    /// Takes the outcome of the write that `set`, `write_array` or a pin
    /// handed back. If the write succeeded the outputs are the ones written,
    /// and if it failed they are the ones before, with the bus error passed on.
    pub fn written<E>(&mut self, outcome: Result<(), E>) -> (done: Result<(), Error<E>>)
        ensures
            final(self).bus() == old(self).bus(),
            (final(self)@, done) == old(self)@.spec_written(outcome),
    {
        self.port.written(outcome)
    }

    /// Takes the outcome of the priming write that `get` or `read_array`
    /// handed back. If it succeeded the read is due, and if it failed the bus
    /// error is passed on and the device is free.
    pub fn primed<E>(&mut self, outcome: Result<(), E>) -> (next: Result<BusRead, Error<E>>)
        ensures
            final(self).bus() == old(self).bus(),
            (final(self)@, next) == old(self)@.spec_primed(outcome),
    {
        self.port.primed(outcome)
    }

    /// Takes the outcome of the read that follows `get`, with the two bytes
    /// that were read, and gives the status of all pins as the chip sent it:
    /// nothing is masked out.
    pub fn sampled<E>(&mut self, outcome: Result<[u8; 2], E>) -> (done: Result<u16, Error<E>>)
        ensures
            final(self).bus() == old(self).bus(),
            (final(self)@, done) == old(self)@.spec_got(outcome),
    {
        match self.port.sampled(outcome) {
            Ok(bits) => Ok(u8_array_to_u16(bits)),
            Err(e) => Err(e),
        }
    }

    /// Takes the outcome of the read that follows `read_array`, which has
    /// filled the array.
    pub fn filled<E>(&mut self, outcome: Result<(), E>) -> (done: Result<(), Error<E>>)
        ensures
            final(self).bus() == old(self).bus(),
            (final(self)@, done) == old(self)@.spec_sampled(outcome),
    {
        self.port.sampled(outcome)
    }
}

/// Setting the outputs takes a write every time, whatever they were set to
/// before: set to the same value again, once the first write has succeeded,
/// they are written again, with the same bytes.
pub proof fn lemma_set_again_writes_again<E>(port: Port<u16>, bits: u16)
    requires
        port.idle(),
    ensures
        ({
            let (held, first) = port.spec_set::<E>(bits);
            let (free, done) = held.spec_written::<E>(Ok(()));
            let (_, second) = free.spec_set::<E>(bits);
            &&& first == Ok::<WriteView, Error<E>>(
                WriteView { address: port.address, bytes: wire_order(bits) },
            )
            &&& done == Ok::<(), Error<E>>(())
            &&& free == port.committed(bits)
            &&& second == first
        }),
{
}

/// Writing an array takes one write of all of it, and if that write succeeds
/// the outputs are the last word of the array; if it fails they are what they
/// were.
pub proof fn lemma_write_array_commits_the_last_word<E>(
    port: Port<u16>,
    data: Seq<u8>,
    written: Result<(), E>,
)
    requires
        port.idle(),
        data.len() > 0,
        data.len() % 2 == 0,
    ensures
        ({
            let (held, begun) = port.spec_write_array::<E>(data);
            let (free, done) = held.spec_written(written);
            &&& begun == Ok::<Option<WriteView>, Error<E>>(
                Some(WriteView { address: port.address, bytes: data }),
            )
            &&& written is Ok ==> free == port.committed(last_word(data)) && done is Ok
            &&& written matches Err(e) ==> free == port && done == Err::<(), Error<E>>(
                Error::I2C(e),
            )
        }),
{
}

/// Reading pins leaves the outputs as they were last set. The priming write
/// carries them together with the pins to be read, and whatever the bus
/// reports of the two transfers, they are afterwards what they were. If the
/// priming write succeeded, what the read brought is handed on as it came.
pub proof fn lemma_get_conserves_outputs<E>(
    port: Port<u16>,
    mask: PinFlag,
    primed: Result<(), E>,
    sampled: Result<[u8; 2], E>,
)
    requires
        port.idle(),
    ensures
        ({
            let (held, begun) = port.spec_get::<E>(mask);
            let (reading, next) = held.spec_primed(primed);
            let (free, done) = reading.spec_got(sampled);
            &&& begun == Ok::<WriteView, Error<E>>(
                WriteView {
                    address: port.address,
                    bytes: wire_order(mask.mask | port.last_set_mask),
                },
            )
            &&& held.last_set_mask == port.last_set_mask
            &&& reading.last_set_mask == port.last_set_mask
            &&& free.last_set_mask == port.last_set_mask
            &&& primed is Ok ==> next == Ok::<BusRead, Error<E>>(
                BusRead { address: port.address, len: WORD_BYTES },
            ) && free == port
            &&& primed is Ok ==> (sampled matches Ok(bits) ==> done == Ok::<u16, Error<E>>(
                word_of(bits[0], bits[1]),
            ))
        }),
{
}

/// Reading pins into an array leaves the outputs as they were last set, as
/// reading them once does.
pub proof fn lemma_read_array_conserves_outputs<E>(
    port: Port<u16>,
    mask: PinFlag,
    len: usize,
    primed: Result<(), E>,
    filled: Result<(), E>,
)
    requires
        port.idle(),
        len > 0,
        len % 2 == 0,
    ensures
        ({
            let (held, begun) = port.spec_read_array::<E>(mask, len);
            let (reading, next) = held.spec_primed(primed);
            let (free, done) = reading.spec_sampled(filled);
            &&& begun == Ok::<Option<WriteView>, Error<E>>(
                Some(
                    WriteView {
                        address: port.address,
                        bytes: wire_order(mask.mask | port.last_set_mask),
                    },
                ),
            )
            &&& held.last_set_mask == port.last_set_mask
            &&& reading.last_set_mask == port.last_set_mask
            &&& free.last_set_mask == port.last_set_mask
            &&& primed is Ok ==> next == Ok::<BusRead, Error<E>>(
                BusRead { address: port.address, len },
            ) && free == port
        }),
{
}

/// While an operation holds the device, whoever starts another one is told
/// `CouldNotAcquireDevice`, and nothing changes. This is said of calls that
/// ask for a transfer: an empty array asks for none, and an array of odd
/// length is refused as invalid whether the device is held or not.
pub proof fn lemma_held_device_refuses<E>(
    port: Port<u16>,
    bits: u16,
    data: Seq<u8>,
    mask: PinFlag,
    len: usize,
)
    requires
        !port.idle(),
    ensures
        port.spec_set::<E>(bits) == (
            port,
            Err::<WriteView, Error<E>>(Error::CouldNotAcquireDevice),
        ),
        port.spec_get::<E>(mask) == (
            port,
            Err::<WriteView, Error<E>>(Error::CouldNotAcquireDevice),
        ),
        data.len() > 0 && data.len() % 2 == 0 ==> port.spec_write_array::<E>(data) == (
            port,
            Err::<Option<WriteView>, Error<E>>(Error::CouldNotAcquireDevice),
        ),
        len > 0 && len % 2 == 0 ==> port.spec_read_array::<E>(mask, len) == (
            port,
            Err::<Option<WriteView>, Error<E>>(Error::CouldNotAcquireDevice),
        ),
{
}

} // verus!
