//! The state that an expander keeps between the transfers of an operation, and
//! the transfers themselves.
//!
//! A port is the chip's one register as the driver knows it: the address it
//! answers to, the outputs that were last written, and the operation that
//! holds it. It is taken by the first step of an operation, which hands back a
//! write for the bus, and given up by the step that takes the outcome of the
//! operation's last transfer. A step that is made without holding the port for
//! it changes nothing and reports `CouldNotAcquireDevice`.

use crate::Error;
use vstd::prelude::*;

verus! {

/// A write that the bus has to carry out.
#[derive(Debug)]
pub struct BusWrite {
    /// The address of the chip.
    pub address: u8,
    /// The bytes to send, in this order, in one write.
    pub bytes: Vec<u8>,
}

/// A write for the bus, with its bytes as a sequence.
pub struct WriteView {
    /// The address of the chip.
    pub address: u8,
    /// The bytes to send.
    pub bytes: Seq<u8>,
}

impl View for BusWrite {
    type V = WriteView;

    open spec fn view(&self) -> WriteView {
        WriteView { address: self.address, bytes: self.bytes@ }
    }
}

/// A read that the bus has to carry out.
#[derive(Debug, Clone, Copy, PartialEq, Eq, Structural)]
pub struct BusRead {
    /// The address of the chip.
    pub address: u8,
    /// The number of bytes to receive, in one read.
    pub len: usize,
}

/// What the first step of an operation answers, with the bytes as a sequence.
pub open spec fn begun_view<E>(begun: Result<BusWrite, Error<E>>) -> Result<WriteView, Error<E>> {
    match begun {
        Ok(write) => Ok(write@),
        Err(e) => Err(e),
    }
}

/// What the first step of an operation that may have nothing to transfer
/// answers, with the bytes as a sequence.
pub open spec fn begun_if_any_view<E>(begun: Result<Option<BusWrite>, Error<E>>) -> Result<
    Option<WriteView>,
    Error<E>,
> {
    match begun {
        Ok(Some(write)) => Ok(Some(write@)),
        Ok(None) => Ok(None),
        Err(e) => Err(e),
    }
}

/// The answer of a step that always has a write to hand back, as the answer
/// of one that may have none.
pub open spec fn some_write<W, E>(step: (Port<W>, Result<WriteView, Error<E>>)) -> (
    Port<W>,
    Result<Option<WriteView>, Error<E>>,
) {
    match step.1 {
        Ok(write) => (step.0, Ok(Some(write))),
        Err(e) => (step.0, Err(e)),
    }
}

/// What holds a port.
#[derive(Debug)]
pub enum Pending<W> {
    /// Nothing: the port is free.
    Idle,
    /// A write that sets the outputs to `mask` is on the bus.
    Output {
        /// The outputs as they will be once the write has succeeded.
        mask: W,
    },
    /// The priming write of a read is on the bus.
    Prime {
        /// The number of bytes to read once the pins are primed.
        len: usize,
    },
    /// The read is on the bus.
    Sample,
}

/// The state of one expander. `W` is the word that holds one bit per pin.
#[derive(Debug)]
pub struct Port<W> {
    /// The I²C device address.
    pub address: u8,
    /// Last status set to output pins, used to conserve its status while doing a read.
    pub last_set_mask: W,
    /// The operation that holds the port.
    pub pending: Pending<W>,
}

impl<W> Port<W> {
    /// Whether the port is free.
    pub open spec fn idle(self) -> bool {
        self.pending is Idle
    }

    /// This port in the hands of `pending`.
    pub open spec fn held_by(self, pending: Pending<W>) -> Port<W> {
        Port { address: self.address, last_set_mask: self.last_set_mask, pending }
    }

    /// This port when it is free again and its outputs are `mask`.
    pub open spec fn committed(self, mask: W) -> Port<W> {
        Port { address: self.address, last_set_mask: mask, pending: Pending::Idle }
    }

    /// Taking the port for a write of `bytes` that sets the outputs to `mask`:
    /// the port afterwards, and the answer.
    pub open spec fn spec_output<E>(self, mask: W, bytes: Seq<u8>) -> (
        Port<W>,
        Result<WriteView, Error<E>>,
    ) {
        if self.idle() {
            (
                self.held_by(Pending::Output { mask }),
                Ok(WriteView { address: self.address, bytes }),
            )
        } else {
            (self, Err(Error::CouldNotAcquireDevice))
        }
    }

    /// Taking the port for a read of `len` bytes that the write of `bytes`
    /// primes: the port afterwards, and the answer.
    pub open spec fn spec_prime<E>(self, bytes: Seq<u8>, len: usize) -> (
        Port<W>,
        Result<WriteView, Error<E>>,
    ) {
        if self.idle() {
            (self.held_by(Pending::Prime { len }), Ok(WriteView { address: self.address, bytes }))
        } else {
            (self, Err(Error::CouldNotAcquireDevice))
        }
    }

    /// The outcome of a write that sets the outputs: the port afterwards, and
    /// the answer.
    pub open spec fn spec_written<E>(self, outcome: Result<(), E>) -> (
        Port<W>,
        Result<(), Error<E>>,
    ) {
        match self.pending {
            Pending::Output { mask } => match outcome {
                Ok(_) => (self.committed(mask), Ok(())),
                Err(e) => (self.held_by(Pending::Idle), Err(Error::I2C(e))),
            },
            _ => (self, Err(Error::CouldNotAcquireDevice)),
        }
    }

    /// The outcome of a priming write: the port afterwards, and the answer.
    pub open spec fn spec_primed<E>(self, outcome: Result<(), E>) -> (
        Port<W>,
        Result<BusRead, Error<E>>,
    ) {
        match self.pending {
            Pending::Prime { len } => match outcome {
                Ok(_) => (
                    self.held_by(Pending::Sample),
                    Ok(BusRead { address: self.address, len }),
                ),
                Err(e) => (self.held_by(Pending::Idle), Err(Error::I2C(e))),
            },
            _ => (self, Err(Error::CouldNotAcquireDevice)),
        }
    }

    /// The outcome of a read, which brought `T`: the port afterwards, and the
    /// answer.
    pub open spec fn spec_sampled<T, E>(self, outcome: Result<T, E>) -> (
        Port<W>,
        Result<T, Error<E>>,
    ) {
        match self.pending {
            Pending::Sample => match outcome {
                Ok(data) => (self.held_by(Pending::Idle), Ok(data)),
                Err(e) => (self.held_by(Pending::Idle), Err(Error::I2C(e))),
            },
            _ => (self, Err(Error::CouldNotAcquireDevice)),
        }
    }
}

impl<W: Copy> Port<W> {
    /// A free port at `address` whose outputs are taken to be `last_set_mask`.
    pub fn new(address: u8, last_set_mask: W) -> (port: Self)
        ensures
            port == (Port { address, last_set_mask, pending: Pending::Idle }),
    {
        Port { address, last_set_mask, pending: Pending::Idle }
    }

    /// Whether the port is free.
    pub fn is_idle(&self) -> (idle: bool)
        ensures
            idle == self.idle(),
    {
        match self.pending {
            Pending::Idle => true,
            _ => false,
        }
    }

    /// Takes the port for a write of `bytes` that sets the outputs to `mask`,
    /// and hands back that write.
    pub fn output<E>(&mut self, mask: W, bytes: Vec<u8>) -> (begun: Result<BusWrite, Error<E>>)
        ensures
            (*final(self), begun_view(begun)) == old(self).spec_output::<E>(mask, bytes@),
    {
        if self.is_idle() {
            self.pending = Pending::Output { mask };
            Ok(BusWrite { address: self.address, bytes })
        } else {
            Err(Error::CouldNotAcquireDevice)
        }
    }

    /// Takes the port for a read of `len` bytes, and hands back the write of
    /// `bytes` that primes it.
    pub fn prime<E>(&mut self, bytes: Vec<u8>, len: usize) -> (begun: Result<BusWrite, Error<E>>)
        ensures
            (*final(self), begun_view(begun)) == old(self).spec_prime::<E>(bytes@, len),
    {
        if self.is_idle() {
            self.pending = Pending::Prime { len };
            Ok(BusWrite { address: self.address, bytes })
        } else {
            Err(Error::CouldNotAcquireDevice)
        }
    }

    /// Takes the outcome of the write that sets the outputs. The outputs are
    /// the new ones if it succeeded and the old ones if it failed, and the
    /// port is free either way.
    pub fn written<E>(&mut self, outcome: Result<(), E>) -> (done: Result<(), Error<E>>)
        ensures
            (*final(self), done) == old(self).spec_written(outcome),
    {
        match self.pending {
            Pending::Output { mask } => {
                self.pending = Pending::Idle;
                match outcome {
                    Ok(_) => {
                        self.last_set_mask = mask;
                        Ok(())
                    },
                    Err(e) => Err(Error::I2C(e)),
                }
            },
            _ => Err(Error::CouldNotAcquireDevice),
        }
    }

    /// Takes the outcome of the priming write. If it succeeded the read is
    /// handed back, and if it failed the port is free.
    pub fn primed<E>(&mut self, outcome: Result<(), E>) -> (next: Result<BusRead, Error<E>>)
        ensures
            (*final(self), next) == old(self).spec_primed(outcome),
    {
        match self.pending {
            Pending::Prime { len } => match outcome {
                Ok(_) => {
                    self.pending = Pending::Sample;
                    Ok(BusRead { address: self.address, len })
                },
                Err(e) => {
                    self.pending = Pending::Idle;
                    Err(Error::I2C(e))
                },
            },
            _ => Err(Error::CouldNotAcquireDevice),
        }
    }

    /// Takes the outcome of the read, and passes on what it brought. The port
    /// is free afterwards.
    pub fn sampled<T, E>(&mut self, outcome: Result<T, E>) -> (done: Result<T, Error<E>>)
        ensures
            (*final(self), done) == old(self).spec_sampled(outcome),
    {
        match self.pending {
            Pending::Sample => {
                self.pending = Pending::Idle;
                match outcome {
                    Ok(data) => Ok(data),
                    Err(e) => Err(Error::I2C(e)),
                }
            },
            _ => Err(Error::CouldNotAcquireDevice),
        }
    }
}

/// The outputs last set change in one step only, the one that takes the
/// success of the write that sets them; the address never changes.
pub proof fn lemma_outputs_follow_successful_writes<W, T, E>(
    port: Port<W>,
    mask: W,
    bytes: Seq<u8>,
    len: usize,
    written: Result<(), E>,
    sampled: Result<T, E>,
)
    ensures
        port.spec_output::<E>(mask, bytes).0.last_set_mask == port.last_set_mask,
        port.spec_prime::<E>(bytes, len).0.last_set_mask == port.last_set_mask,
        port.spec_primed(written).0.last_set_mask == port.last_set_mask,
        port.spec_sampled(sampled).0.last_set_mask == port.last_set_mask,
        port.spec_written(written).0.last_set_mask == (match (port.pending, written) {
            (Pending::Output { mask: due }, Ok(_)) => due,
            _ => port.last_set_mask,
        }),
        port.spec_output::<E>(mask, bytes).0.address == port.address,
        port.spec_prime::<E>(bytes, len).0.address == port.address,
        port.spec_primed(written).0.address == port.address,
        port.spec_sampled(sampled).0.address == port.address,
        port.spec_written(written).0.address == port.address,
{
}

/// A port that is held is not to be had: whoever tries to take it is told
/// `CouldNotAcquireDevice`, and the port stays as it is.
pub proof fn lemma_held_port_refuses<W, E>(port: Port<W>, mask: W, bytes: Seq<u8>, len: usize)
    requires
        !port.idle(),
    ensures
        port.spec_output::<E>(mask, bytes) == (
            port,
            Err::<WriteView, Error<E>>(Error::CouldNotAcquireDevice),
        ),
        port.spec_prime::<E>(bytes, len) == (
            port,
            Err::<WriteView, Error<E>>(Error::CouldNotAcquireDevice),
        ),
{
}

/// A port that is free has no transfer on the bus: whoever brings it an
/// outcome is told `CouldNotAcquireDevice`, and the port stays as it is.
pub proof fn lemma_free_port_takes_no_outcome<W, T, E>(
    port: Port<W>,
    written: Result<(), E>,
    sampled: Result<T, E>,
)
    requires
        port.idle(),
    ensures
        port.spec_written(written) == (port, Err::<(), Error<E>>(Error::CouldNotAcquireDevice)),
        port.spec_primed(written) == (port, Err::<BusRead, Error<E>>(Error::CouldNotAcquireDevice)),
        port.spec_sampled(sampled) == (port, Err::<T, Error<E>>(Error::CouldNotAcquireDevice)),
{
}

/// An operation gives the port back when it ends: a write that sets the
/// outputs with the outcome of that write, a read with the failure of its
/// priming write, or else with the outcome of the read itself.
pub proof fn lemma_operations_give_the_port_back<W, T, E>(
    port: Port<W>,
    mask: W,
    bytes: Seq<u8>,
    len: usize,
    written: Result<(), E>,
    sampled: Result<T, E>,
)
    requires
        port.idle(),
    ensures
        port.spec_output::<E>(mask, bytes).0.spec_written(written).0.idle(),
        written is Err ==> port.spec_prime::<E>(bytes, len).0.spec_primed(written).0.idle(),
        written is Ok ==> port.spec_prime::<E>(bytes, len).0.spec_primed(written).0.spec_sampled(
            sampled,
        ).0.idle(),
{
}

} // verus!
