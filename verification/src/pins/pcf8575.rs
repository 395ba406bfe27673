//! Structures specific to PCF8575

use crate::pins::Pin;
use crate::PinFlag;
use vstd::prelude::*;

verus! {

/// Pins
#[derive(Debug)]
pub struct Parts<'a, IC> {
    /// Pin
    pub p0: Pin<'a, IC>,
    /// Pin
    pub p1: Pin<'a, IC>,
    /// Pin
    pub p2: Pin<'a, IC>,
    /// Pin
    pub p3: Pin<'a, IC>,
    /// Pin
    pub p4: Pin<'a, IC>,
    /// Pin
    pub p5: Pin<'a, IC>,
    /// Pin
    pub p6: Pin<'a, IC>,
    /// Pin
    pub p7: Pin<'a, IC>,
    /// Pin
    pub p10: Pin<'a, IC>,
    /// Pin
    pub p11: Pin<'a, IC>,
    /// Pin
    pub p12: Pin<'a, IC>,
    /// Pin
    pub p13: Pin<'a, IC>,
    /// Pin
    pub p14: Pin<'a, IC>,
    /// Pin
    pub p15: Pin<'a, IC>,
    /// Pin
    pub p16: Pin<'a, IC>,
    /// Pin
    pub p17: Pin<'a, IC>,
}

impl<'a, IC> Parts<'a, IC> {
    /// Whether these are the sixteen pins of `ic`, each under its own name.
    pub open spec fn of(self, ic: &'a IC) -> bool {
        &&& self.p0.spec_expander() == ic && self.p0.spec_flag().mask == 0x0001
        &&& self.p1.spec_expander() == ic && self.p1.spec_flag().mask == 0x0002
        &&& self.p2.spec_expander() == ic && self.p2.spec_flag().mask == 0x0004
        &&& self.p3.spec_expander() == ic && self.p3.spec_flag().mask == 0x0008
        &&& self.p4.spec_expander() == ic && self.p4.spec_flag().mask == 0x0010
        &&& self.p5.spec_expander() == ic && self.p5.spec_flag().mask == 0x0020
        &&& self.p6.spec_expander() == ic && self.p6.spec_flag().mask == 0x0040
        &&& self.p7.spec_expander() == ic && self.p7.spec_flag().mask == 0x0080
        &&& self.p10.spec_expander() == ic && self.p10.spec_flag().mask == 0x0100
        &&& self.p11.spec_expander() == ic && self.p11.spec_flag().mask == 0x0200
        &&& self.p12.spec_expander() == ic && self.p12.spec_flag().mask == 0x0400
        &&& self.p13.spec_expander() == ic && self.p13.spec_flag().mask == 0x0800
        &&& self.p14.spec_expander() == ic && self.p14.spec_flag().mask == 0x1000
        &&& self.p15.spec_expander() == ic && self.p15.spec_flag().mask == 0x2000
        &&& self.p16.spec_expander() == ic && self.p16.spec_flag().mask == 0x4000
        &&& self.p17.spec_expander() == ic && self.p17.spec_flag().mask == 0x8000
    }

    /// The sixteen pins of `ic`.
    pub fn new(ic: &'a IC) -> (parts: Self)
        ensures
            parts.of(ic),
    {
        Parts {
            p0: Pin::new(ic, PinFlag::P0()),
            p1: Pin::new(ic, PinFlag::P1()),
            p2: Pin::new(ic, PinFlag::P2()),
            p3: Pin::new(ic, PinFlag::P3()),
            p4: Pin::new(ic, PinFlag::P4()),
            p5: Pin::new(ic, PinFlag::P5()),
            p6: Pin::new(ic, PinFlag::P6()),
            p7: Pin::new(ic, PinFlag::P7()),
            p10: Pin::new(ic, PinFlag::P10()),
            p11: Pin::new(ic, PinFlag::P11()),
            p12: Pin::new(ic, PinFlag::P12()),
            p13: Pin::new(ic, PinFlag::P13()),
            p14: Pin::new(ic, PinFlag::P14()),
            p15: Pin::new(ic, PinFlag::P15()),
            p16: Pin::new(ic, PinFlag::P16()),
            p17: Pin::new(ic, PinFlag::P17()),
        }
    }
}

} // verus!
