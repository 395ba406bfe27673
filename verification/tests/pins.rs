use embedded_hal::i2c::{ErrorKind, I2c};
use embedded_hal_mock::eh1::i2c::{Mock as I2cMock, Transaction as I2cTrans};
use pcf857x::{
    Error, GetPin, Pcf8574, Pcf8574a, Pcf8575, PinFlag, SetBits, SetPin, SlaveAddr,
};

const LOWER: [(fn() -> PinFlag, u8); 8] = [
    (PinFlag::P0, 1),
    (PinFlag::P1, 2),
    (PinFlag::P2, 4),
    (PinFlag::P3, 8),
    (PinFlag::P4, 16),
    (PinFlag::P5, 32),
    (PinFlag::P6, 64),
    (PinFlag::P7, 128),
];

const ALL: [(fn() -> PinFlag, u16); 16] = [
    (PinFlag::P0, 1),
    (PinFlag::P1, 2),
    (PinFlag::P2, 4),
    (PinFlag::P3, 8),
    (PinFlag::P4, 16),
    (PinFlag::P5, 32),
    (PinFlag::P6, 64),
    (PinFlag::P7, 128),
    (PinFlag::P10, 256),
    (PinFlag::P11, 512),
    (PinFlag::P12, 1024),
    (PinFlag::P13, 2048),
    (PinFlag::P14, 4096),
    (PinFlag::P15, 8192),
    (PinFlag::P16, 16384),
    (PinFlag::P17, 32768),
];

fn u16_to_u8_array(input: u16) -> [u8; 2] {
    [input as u8, (input >> 8) as u8]
}

// What the owner of an expander does with a single pin: it carries out on the
// bus each transfer that the expander hands back, and reports the outcome.

fn set8(expander: &mut Pcf8574<I2cMock>, bits: u8) {
    let write = expander.set::<ErrorKind>(bits).unwrap();
    let outcome = expander.i2c().write(write.address, &write.bytes);
    expander.written(outcome).unwrap();
}

fn set16(expander: &mut Pcf8575<I2cMock>, bits: u16) {
    let write = expander.set::<ErrorKind>(bits).unwrap();
    let outcome = expander.i2c().write(write.address, &write.bytes);
    expander.written(outcome).unwrap();
}

fn sample8(expander: &mut Pcf8574<I2cMock>, flag: PinFlag) -> Result<[u8; 1], ErrorKind> {
    let prime = expander.get::<ErrorKind>(flag).unwrap();
    let outcome = expander.i2c().write(prime.address, &prime.bytes);
    let read = expander.primed(outcome).unwrap();
    let mut bits = [0; 1];
    let outcome = expander.i2c().read(read.address, &mut bits[..read.len]);
    outcome.map(|()| bits)
}

fn sample16(expander: &mut Pcf8575<I2cMock>, flag: PinFlag) -> Result<[u8; 2], ErrorKind> {
    let prime = expander.get::<ErrorKind>(&flag).unwrap();
    let outcome = expander.i2c().write(prime.address, &prime.bytes);
    let read = expander.primed(outcome).unwrap();
    let mut bits = [0; 2];
    let outcome = expander.i2c().read(read.address, &mut bits[..read.len]);
    outcome.map(|()| bits)
}

#[test]
fn pcf8574_split_names_each_pin() {
    let expander = Pcf8574::new((), SlaveAddr::default());
    let parts = expander.split();
    let pins = [
        &parts.p0, &parts.p1, &parts.p2, &parts.p3, &parts.p4, &parts.p5, &parts.p6, &parts.p7,
    ];
    for (pin, (_, value)) in pins.iter().zip(LOWER) {
        assert_eq!(value as u16, pin.flag().mask);
        assert!(std::ptr::eq(pin.expander(), &expander));
    }
}

#[test]
fn pcf8575_split_names_each_pin() {
    let expander = Pcf8575::new((), SlaveAddr::default());
    let parts = expander.split();
    let pins = [
        &parts.p0, &parts.p1, &parts.p2, &parts.p3, &parts.p4, &parts.p5, &parts.p6, &parts.p7,
        &parts.p10, &parts.p11, &parts.p12, &parts.p13, &parts.p14, &parts.p15, &parts.p16,
        &parts.p17,
    ];
    for (pin, (_, value)) in pins.iter().zip(ALL) {
        assert_eq!(value, pin.flag().mask);
        assert!(std::ptr::eq(pin.expander(), &expander));
    }
}

#[test]
fn split_may_be_done_again() {
    let mut expander = Pcf8575::new((), SlaveAddr::default());
    let flag = {
        let first = expander.split();
        let second = expander.split();
        assert_eq!(first.p12.flag(), second.p12.flag());
        first.p12.flag()
    };
    let write = SetPin::<()>::set_pin_high(&mut expander, flag).unwrap();
    assert_eq!(vec![0x00, 0x04], write.bytes);
}

#[test]
fn pcf8574_can_split_and_set_high() {
    for (index, (_, value)) in LOWER.iter().enumerate() {
        let value = *value;
        let transactions = [I2cTrans::write(0b010_0000, vec![value])];
        let mut expander = Pcf8574::new(I2cMock::new(&transactions), SlaveAddr::default());
        let flag = {
            let parts = expander.split();
            let pins = [
                parts.p0, parts.p1, parts.p2, parts.p3, parts.p4, parts.p5, parts.p6, parts.p7,
            ];
            pins[index].flag()
        };
        let write = SetPin::<ErrorKind>::set_pin_high(&mut expander, flag).unwrap();
        let outcome = expander.i2c().write(write.address, &write.bytes);
        expander.written(outcome).unwrap();
        assert_eq!(value, expander.last_set_mask());
        expander.destroy().done();
    }
}

#[test]
fn pcf8574_can_split_and_set_low() {
    for (flag, value) in LOWER {
        let transactions = [
            I2cTrans::write(0b010_0000, vec![0b1111_1111]),
            I2cTrans::write(0b010_0000, vec![0b1111_1111 & !value]),
        ];
        let mut expander = Pcf8574::new(I2cMock::new(&transactions), SlaveAddr::default());
        set8(&mut expander, 0b1111_1111);
        let write = SetPin::<ErrorKind>::set_pin_low(&mut expander, flag()).unwrap();
        let outcome = expander.i2c().write(write.address, &write.bytes);
        expander.written(outcome).unwrap();
        assert_eq!(0b1111_1111 & !value, expander.last_set_mask());
        expander.destroy().done();
    }
}

#[test]
fn pcf8574_can_split_and_get_is_high() {
    for (flag, value) in LOWER {
        let transactions = [
            I2cTrans::write(0b010_0000, vec![value]),
            I2cTrans::read(0b010_0000, vec![value]),
        ];
        let mut expander = Pcf8574::new(I2cMock::new(&transactions), SlaveAddr::default());
        let sampled = sample8(&mut expander, flag());
        assert!(expander.is_pin_high(flag(), sampled).unwrap());
        assert!(expander.is_idle());
        expander.destroy().done();
    }
}

#[test]
fn pcf8574_can_split_and_get_is_low() {
    for (flag, value) in LOWER {
        let transactions = [
            I2cTrans::write(0b010_0000, vec![value]),
            I2cTrans::read(0b010_0000, vec![!value]),
        ];
        let mut expander = Pcf8574::new(I2cMock::new(&transactions), SlaveAddr::default());
        let sampled = sample8(&mut expander, flag());
        assert!(expander.is_pin_low(flag(), sampled).unwrap());
        assert!(expander.is_idle());
        expander.destroy().done();
    }
}

#[test]
fn pcf8574_pin_that_reads_low_is_not_high() {
    for (flag, value) in LOWER {
        let transactions = [
            I2cTrans::write(0b010_0000, vec![value]),
            I2cTrans::read(0b010_0000, vec![!value]),
            I2cTrans::write(0b010_0000, vec![value]),
            I2cTrans::read(0b010_0000, vec![value]),
        ];
        let mut expander = Pcf8574::new(I2cMock::new(&transactions), SlaveAddr::default());
        let sampled = sample8(&mut expander, flag());
        assert!(!expander.is_pin_high(flag(), sampled).unwrap());
        let sampled = sample8(&mut expander, flag());
        assert!(!expander.is_pin_low(flag(), sampled).unwrap());
        expander.destroy().done();
    }
}

#[test]
fn pcf8575_can_split_and_set_high() {
    for (index, (_, value)) in ALL.iter().enumerate() {
        let value = *value;
        let transactions = [I2cTrans::write(0b010_0000, u16_to_u8_array(value).to_vec())];
        let mut expander = Pcf8575::new(I2cMock::new(&transactions), SlaveAddr::default());
        let flag = {
            let parts = expander.split();
            let pins = [
                parts.p0, parts.p1, parts.p2, parts.p3, parts.p4, parts.p5, parts.p6, parts.p7,
                parts.p10, parts.p11, parts.p12, parts.p13, parts.p14, parts.p15, parts.p16,
                parts.p17,
            ];
            pins[index].flag()
        };
        let write = SetPin::<ErrorKind>::set_pin_high(&mut expander, flag).unwrap();
        let outcome = expander.i2c().write(write.address, &write.bytes);
        expander.written(outcome).unwrap();
        assert_eq!(value, expander.last_set_mask());
        expander.destroy().done();
    }
}

#[test]
fn pcf8575_can_split_and_set_low() {
    for (flag, value) in ALL {
        let transactions = [
            I2cTrans::write(0b010_0000, vec![0b1111_1111, 0b1111_1111]),
            I2cTrans::write(
                0b010_0000,
                u16_to_u8_array(0b1111_1111_1111_1111 & !value).to_vec(),
            ),
        ];
        let mut expander = Pcf8575::new(I2cMock::new(&transactions), SlaveAddr::default());
        set16(&mut expander, 0b1111_1111_1111_1111);
        let write = SetPin::<ErrorKind>::set_pin_low(&mut expander, flag()).unwrap();
        let outcome = expander.i2c().write(write.address, &write.bytes);
        expander.written(outcome).unwrap();
        assert_eq!(0b1111_1111_1111_1111 & !value, expander.last_set_mask());
        expander.destroy().done();
    }
}

#[test]
fn pcf8575_can_split_and_get_is_high() {
    for (flag, value) in ALL {
        let transactions = [
            I2cTrans::write(0b010_0000, u16_to_u8_array(value).to_vec()),
            I2cTrans::read(0b010_0000, u16_to_u8_array(value).to_vec()),
        ];
        let mut expander = Pcf8575::new(I2cMock::new(&transactions), SlaveAddr::default());
        let sampled = sample16(&mut expander, flag());
        assert!(expander.is_pin_high(flag(), sampled).unwrap());
        assert!(expander.is_idle());
        expander.destroy().done();
    }
}

#[test]
fn pcf8575_can_split_and_get_is_low() {
    for (flag, value) in ALL {
        let transactions = [
            I2cTrans::write(0b010_0000, u16_to_u8_array(value).to_vec()),
            I2cTrans::read(0b010_0000, u16_to_u8_array(!value).to_vec()),
        ];
        let mut expander = Pcf8575::new(I2cMock::new(&transactions), SlaveAddr::default());
        let sampled = sample16(&mut expander, flag());
        assert!(expander.is_pin_low(flag(), sampled).unwrap());
        assert!(expander.is_idle());
        expander.destroy().done();
    }
}

#[test]
fn pcf8575_pin_that_reads_low_is_not_high() {
    for (flag, value) in ALL {
        let transactions = [
            I2cTrans::write(0b010_0000, u16_to_u8_array(value).to_vec()),
            I2cTrans::read(0b010_0000, u16_to_u8_array(!value).to_vec()),
            I2cTrans::write(0b010_0000, u16_to_u8_array(value).to_vec()),
            I2cTrans::read(0b010_0000, u16_to_u8_array(value).to_vec()),
        ];
        let mut expander = Pcf8575::new(I2cMock::new(&transactions), SlaveAddr::default());
        let sampled = sample16(&mut expander, flag());
        assert!(!expander.is_pin_high(flag(), sampled).unwrap());
        let sampled = sample16(&mut expander, flag());
        assert!(!expander.is_pin_low(flag(), sampled).unwrap());
        expander.destroy().done();
    }
}

#[test]
fn setting_a_pin_leaves_the_other_pins_as_set() {
    let mut expander = Pcf8575::new((), SlaveAddr::default());
    set_outputs(&mut expander, 0b1010_0101_1100_0011);
    let write = SetPin::<()>::set_pin_high(&mut expander, PinFlag::P2()).unwrap();
    assert_eq!(vec![0b1100_0111, 0b1010_0101], write.bytes);
    expander.written::<()>(Ok(())).unwrap();
    let write = SetPin::<()>::set_pin_low(&mut expander, PinFlag::P17()).unwrap();
    assert_eq!(vec![0b1100_0111, 0b0010_0101], write.bytes);
    expander.written::<()>(Ok(())).unwrap();
    assert_eq!(0b0010_0101_1100_0111, expander.last_set_mask());
}

fn set_outputs(expander: &mut Pcf8575<()>, bits: u16) {
    expander.set::<()>(bits).unwrap();
    expander.written::<()>(Ok(())).unwrap();
}

#[test]
fn setting_a_pin_writes_even_where_nothing_changes() {
    let mut expander = Pcf8575::new((), SlaveAddr::default());
    set_outputs(&mut expander, 0x0100);
    let write = SetPin::<()>::set_pin_high(&mut expander, PinFlag::P10()).unwrap();
    assert_eq!(vec![0x00, 0x01], write.bytes);
    expander.written::<()>(Ok(())).unwrap();
    let write = SetPin::<()>::set_pin_low(&mut expander, PinFlag::P0()).unwrap();
    assert_eq!(vec![0x00, 0x01], write.bytes);
}

#[test]
fn pins_of_the_upper_port_select_nothing_on_a_small_device() {
    let mut expander = Pcf8574a::new((), SlaveAddr::default());
    expander.set::<()>(0x3C).unwrap();
    expander.written::<()>(Ok(())).unwrap();
    let write = SetPin::<()>::set_pin_high(&mut expander, PinFlag::P17()).unwrap();
    assert_eq!(0b011_1000, write.address);
    assert_eq!(vec![0x3C], write.bytes);
    expander.written::<()>(Ok(())).unwrap();
    let write = SetPin::<()>::set_pin_low(&mut expander, PinFlag::P12()).unwrap();
    assert_eq!(vec![0x3C], write.bytes);
    expander.written::<()>(Ok(())).unwrap();
    assert!(matches!(
        expander.set_bits_high(PinFlag::P10()),
        Ok::<_, Error<()>>(None)
    ));
    assert!(matches!(
        expander.set_bits_low(PinFlag::P10()),
        Ok::<_, Error<()>>(None)
    ));
}

#[test]
fn held_device_refuses_pins() {
    let mut expander = Pcf8575::new((), SlaveAddr::default());
    let _write = expander.set::<()>(1).unwrap();
    assert!(matches!(
        SetPin::<()>::set_pin_high(&mut expander, PinFlag::P1()),
        Err(Error::CouldNotAcquireDevice)
    ));
    assert!(matches!(
        SetPin::<()>::set_pin_low(&mut expander, PinFlag::P1()),
        Err(Error::CouldNotAcquireDevice)
    ));
    assert!(matches!(
        GetPin::<()>::is_pin_high(&mut expander, PinFlag::P1(), Ok([0xFF, 0xFF])),
        Err(Error::CouldNotAcquireDevice)
    ));
    assert!(matches!(
        GetPin::<()>::is_pin_low(&mut expander, PinFlag::P1(), Ok([0, 0])),
        Err(Error::CouldNotAcquireDevice)
    ));

    let mut small = Pcf8574::new((), SlaveAddr::default());
    let _prime = small.get::<()>(PinFlag::P1()).unwrap();
    assert!(matches!(
        SetPin::<()>::set_pin_high(&mut small, PinFlag::P1()),
        Err(Error::CouldNotAcquireDevice)
    ));
    assert!(matches!(
        SetBits::<()>::set_bits_high(&mut small, PinFlag::P1()),
        Err(Error::CouldNotAcquireDevice)
    ));
    // Held, not even a pin that is low already is found to be so.
    assert!(matches!(
        SetBits::<()>::set_bits_low(&mut small, PinFlag::P1()),
        Err(Error::CouldNotAcquireDevice)
    ));
    assert!(matches!(
        GetPin::<()>::is_pin_high(&mut small, PinFlag::P1(), Ok([0xFF])),
        Err(Error::CouldNotAcquireDevice)
    ));
}

#[test]
fn failed_read_of_a_pin_is_passed_on() {
    let mut expander = Pcf8575::new((), SlaveAddr::default());
    expander.get::<u8>(&PinFlag::P5()).unwrap();
    expander.primed::<u8>(Ok(())).unwrap();
    assert!(matches!(
        expander.is_pin_high(PinFlag::P5(), Err(7u8)),
        Err(Error::I2C(7))
    ));
    assert!(expander.is_idle());

    let mut small = Pcf8574::new((), SlaveAddr::default());
    small.get::<u8>(PinFlag::P5()).unwrap();
    small.primed::<u8>(Ok(())).unwrap();
    assert!(matches!(
        small.is_pin_low(PinFlag::P5(), Err(9u8)),
        Err(Error::I2C(9))
    ));
    assert!(small.is_idle());
}

#[test]
fn set_bits_writes_only_what_changes() {
    for (flag, value) in LOWER {
        let transactions = [
            I2cTrans::write(0b011_1000, vec![value]),
            I2cTrans::write(0b011_1000, vec![0]),
        ];
        let mut expander = Pcf8574a::new(I2cMock::new(&transactions), SlaveAddr::default());

        // Low already: nothing goes over the bus.
        assert!(matches!(
            expander.set_bits_low(flag()),
            Ok::<_, Error<ErrorKind>>(None)
        ));
        assert!(expander.is_idle());

        // Low to high: one write, with the bit of the pin flipped.
        let write = SetBits::<ErrorKind>::set_bits_high(&mut expander, flag())
            .unwrap()
            .unwrap();
        assert_eq!(vec![0 ^ value], write.bytes);
        let outcome: Result<(), ErrorKind> = expander.i2c().write(write.address, &write.bytes);
        expander.written(outcome).unwrap();
        assert_eq!(value, expander.last_set_mask());

        // High already: nothing goes over the bus.
        assert!(matches!(
            expander.set_bits_high(flag()),
            Ok::<_, Error<ErrorKind>>(None)
        ));
        assert!(expander.is_idle());

        // High to low: one write, with the bit of the pin flipped.
        let write = SetBits::<ErrorKind>::set_bits_low(&mut expander, flag())
            .unwrap()
            .unwrap();
        assert_eq!(vec![value ^ value], write.bytes);
        let outcome: Result<(), ErrorKind> = expander.i2c().write(write.address, &write.bytes);
        expander.written(outcome).unwrap();
        assert_eq!(0, expander.last_set_mask());
        expander.destroy().done();
    }
}

#[test]
fn set_bits_leaves_the_other_pins_as_set() {
    let mut expander = Pcf8574::new((), SlaveAddr::default());
    expander.set::<()>(0b0101_1010).unwrap();
    expander.written::<()>(Ok(())).unwrap();
    let write = SetBits::<()>::set_bits_high(&mut expander, PinFlag::P0() | PinFlag::P1())
        .unwrap()
        .unwrap();
    assert_eq!(vec![0b0101_1011], write.bytes);
    expander.written::<()>(Err(())).unwrap_err();
    assert_eq!(0b0101_1010, expander.last_set_mask());
    let write = SetBits::<()>::set_bits_low(&mut expander, PinFlag::P6() | PinFlag::P7())
        .unwrap()
        .unwrap();
    assert_eq!(vec![0b0001_1010], write.bytes);
    expander.written::<()>(Ok(())).unwrap();
    assert_eq!(0b0001_1010, expander.last_set_mask());
}
