//! Driver core for the PCF8574, PCF8574A and PCF8575 I/O expanders.
//!
//! The devices consist of 8 or 16 quasi-bidirectional ports behind an I²C-bus
//! interface with three hardware address inputs. One register of the chip is
//! both the output-drive register and the input-sense register: a pin is read
//! by driving it high first, and a read that did so blindly would pull up
//! every output that the caller had set low.
//!
//! This crate holds what the driver decides, and performs no bus traffic of its
//! own. An expander keeps the bus for its owner and remembers the outputs that
//! were last written. Every operation hands back the transfer that the owner
//! has to carry out on the bus, and takes the outcome of that transfer to settle
//! its state:
//!
//! - `set` and `write_array` hand back a write; `written` takes its outcome and
//!   commits the new outputs if the write succeeded.
//! - `get` and `read_array` hand back the priming write, which carries the pins
//!   to be read together with the outputs last written; `primed` takes its
//!   outcome and hands back the read; `sampled` or `filled` take the outcome
//!   of the read.
//!
//! From the first step to the last the expander is held by that operation, and
//! whoever starts another one meanwhile is told `CouldNotAcquireDevice`.

use vstd::prelude::*;

pub mod devices;
pub mod pin_flag;
pub mod pins;
pub mod port;
pub mod set_bits;
pub mod slave_addr;

pub use crate::devices::pcf8574::{Pcf8574, Pcf8574a};
pub use crate::devices::pcf8575::Pcf8575;
pub use crate::devices::{u16_to_u8_array, u8_array_to_u16};
pub use crate::pin_flag::PinFlag;
pub use crate::pins::{pcf8574, pcf8575, GetPin, Pin, SetPin};
pub use crate::port::{BusRead, BusWrite, Pending, Port};
pub use crate::set_bits::SetBits;
pub use crate::slave_addr::SlaveAddr;

verus! {

/// All possible errors in this crate
#[derive(Debug)]
pub enum Error<E> {
    /// I²C bus error
    I2C(E),
    /// Invalid input data
    InvalidInputData,
    /// Could not acquire device. Maybe it is already acquired.
    CouldNotAcquireDevice,
}

} // verus!
