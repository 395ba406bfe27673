//! Pin flag definition

use vstd::prelude::*;

verus! {

/// I/O pin flags, used to select which pins to read in the `get` functions.
/// It is possible to select multiple of them using the binary _or_ operator (`|`):
/// `PinFlag::P0() | PinFlag::P1()` selects the pins P0 and P1.
/// Note that P10-17 can only be used with PCF8575 devices.
#[derive(Debug, Clone, Copy, PartialEq, Eq, Structural)]
pub struct PinFlag {
    /// One bit for each selected pin: bits 0 to 7 for P0 to P7, bits 8 to 15
    /// for P10 to P17.
    pub mask: u16,
}

impl PinFlag {
    /// Pin 0
    #[allow(non_snake_case)]
    pub fn P0() -> (flag: PinFlag)
        ensures
            flag.mask == 1,
    {
        PinFlag { mask: 1 }
    }

    /// Pin 1
    #[allow(non_snake_case)]
    pub fn P1() -> (flag: PinFlag)
        ensures
            flag.mask == 2,
    {
        PinFlag { mask: 2 }
    }

    /// Pin 2
    #[allow(non_snake_case)]
    pub fn P2() -> (flag: PinFlag)
        ensures
            flag.mask == 4,
    {
        PinFlag { mask: 4 }
    }

    /// Pin 3
    #[allow(non_snake_case)]
    pub fn P3() -> (flag: PinFlag)
        ensures
            flag.mask == 8,
    {
        PinFlag { mask: 8 }
    }

    /// Pin 4
    #[allow(non_snake_case)]
    pub fn P4() -> (flag: PinFlag)
        ensures
            flag.mask == 16,
    {
        PinFlag { mask: 16 }
    }

    /// Pin 5
    #[allow(non_snake_case)]
    pub fn P5() -> (flag: PinFlag)
        ensures
            flag.mask == 32,
    {
        PinFlag { mask: 32 }
    }

    /// Pin 6
    #[allow(non_snake_case)]
    pub fn P6() -> (flag: PinFlag)
        ensures
            flag.mask == 64,
    {
        PinFlag { mask: 64 }
    }

    /// Pin 7
    #[allow(non_snake_case)]
    pub fn P7() -> (flag: PinFlag)
        ensures
            flag.mask == 128,
    {
        PinFlag { mask: 128 }
    }

    /// Pin 10 (only PCF8575)
    #[allow(non_snake_case)]
    pub fn P10() -> (flag: PinFlag)
        ensures
            flag.mask == 256,
    {
        PinFlag { mask: 256 }
    }

    /// Pin 11 (only PCF8575)
    #[allow(non_snake_case)]
    pub fn P11() -> (flag: PinFlag)
        ensures
            flag.mask == 512,
    {
        PinFlag { mask: 512 }
    }

    /// Pin 12 (only PCF8575)
    #[allow(non_snake_case)]
    pub fn P12() -> (flag: PinFlag)
        ensures
            flag.mask == 1024,
    {
        PinFlag { mask: 1024 }
    }

    /// Pin 13 (only PCF8575)
    #[allow(non_snake_case)]
    pub fn P13() -> (flag: PinFlag)
        ensures
            flag.mask == 2048,
    {
        PinFlag { mask: 2048 }
    }

    /// Pin 14 (only PCF8575)
    #[allow(non_snake_case)]
    pub fn P14() -> (flag: PinFlag)
        ensures
            flag.mask == 4096,
    {
        PinFlag { mask: 4096 }
    }

    /// Pin 15 (only PCF8575)
    #[allow(non_snake_case)]
    pub fn P15() -> (flag: PinFlag)
        ensures
            flag.mask == 8192,
    {
        PinFlag { mask: 8192 }
    }

    /// Pin 16 (only PCF8575)
    #[allow(non_snake_case)]
    pub fn P16() -> (flag: PinFlag)
        ensures
            flag.mask == 16384,
    {
        PinFlag { mask: 16384 }
    }

    /// Pin 17 (only PCF8575)
    #[allow(non_snake_case)]
    pub fn P17() -> (flag: PinFlag)
        ensures
            flag.mask == 32768,
    {
        PinFlag { mask: 32768 }
    }

    /// Whether exactly one pin is selected: the mask is not empty, and taking
    /// its lowest bit away leaves nothing.
    pub open spec fn single(self) -> bool {
        self.mask != 0 && self.mask & ((self.mask - 1) as u16) == 0
    }

    /// Whether only pins of the lower port, P0 to P7, are selected.
    pub open spec fn fits_byte(self) -> bool {
        self.mask <= 0xff
    }
}

impl core::ops::BitOr for PinFlag {
    type Output = Self;

    /// Selects the pins of both.
    fn bitor(self, rhs: Self) -> (both: Self) {
        PinFlag { mask: self.mask | rhs.mask }
    }
}

impl vstd::std_specs::ops::BitOrSpecImpl for PinFlag {
    open spec fn obeys_bitor_spec() -> bool {
        true
    }

    open spec fn bitor_req(self, rhs: Self) -> bool {
        true
    }

    open spec fn bitor_spec(self, rhs: Self) -> Self {
        PinFlag { mask: self.mask | rhs.mask }
    }
}

} // verus!
