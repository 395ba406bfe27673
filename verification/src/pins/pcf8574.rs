//! Structures specific to PCF8574 and PCF8574A

use crate::pins::Pin;
use crate::PinFlag;
use vstd::prelude::*;

verus! {

/// Pins
#[derive(Debug)]
pub struct Parts<'a, IC> {
    /// Pin
    pub p0: Pin<'a, IC>,
    /// Pin
    pub p1: Pin<'a, IC>,
    /// Pin
    pub p2: Pin<'a, IC>,
    /// Pin
    pub p3: Pin<'a, IC>,
    /// Pin
    pub p4: Pin<'a, IC>,
    /// Pin
    pub p5: Pin<'a, IC>,
    /// Pin
    pub p6: Pin<'a, IC>,
    /// Pin
    pub p7: Pin<'a, IC>,
}

impl<'a, IC> Parts<'a, IC> {
    /// Whether these are the eight pins of `ic`, each under its own name.
    pub open spec fn of(self, ic: &'a IC) -> bool {
        &&& self.p0.spec_expander() == ic && self.p0.spec_flag().mask == 0x01
        &&& self.p1.spec_expander() == ic && self.p1.spec_flag().mask == 0x02
        &&& self.p2.spec_expander() == ic && self.p2.spec_flag().mask == 0x04
        &&& self.p3.spec_expander() == ic && self.p3.spec_flag().mask == 0x08
        &&& self.p4.spec_expander() == ic && self.p4.spec_flag().mask == 0x10
        &&& self.p5.spec_expander() == ic && self.p5.spec_flag().mask == 0x20
        &&& self.p6.spec_expander() == ic && self.p6.spec_flag().mask == 0x40
        &&& self.p7.spec_expander() == ic && self.p7.spec_flag().mask == 0x80
    }

    /// The eight pins of `ic`.
    pub fn new(ic: &'a IC) -> (parts: Self)
        ensures
            parts.of(ic),
    {
        Parts {
            p0: Pin::new(ic, PinFlag::P0()),
            p1: Pin::new(ic, PinFlag::P1()),
            p2: Pin::new(ic, PinFlag::P2()),
            p3: Pin::new(ic, PinFlag::P3()),
            p4: Pin::new(ic, PinFlag::P4()),
            p5: Pin::new(ic, PinFlag::P5()),
            p6: Pin::new(ic, PinFlag::P6()),
            p7: Pin::new(ic, PinFlag::P7()),
        }
    }
}

} // verus!
