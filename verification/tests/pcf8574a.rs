use pcf857x::port::BusWrite;
use pcf857x::{Error, Pcf8574a, PinFlag, SlaveAddr};

/// A bus that records what is written to it and answers every read with the
/// data it was given.
struct I2cMock<'a> {
    read_data: &'a [u8],
    last_address: Option<u8>,
    write_data: Vec<u8>,
}

impl<'a> I2cMock<'a> {
    fn new() -> Self {
        I2cMock {
            read_data: &[],
            last_address: None,
            write_data: Vec::new(),
        }
    }

    fn set_read_data(&mut self, data: &'a [u8]) {
        self.read_data = data;
    }

    fn get_last_address(&self) -> Option<u8> {
        self.last_address
    }

    fn get_write_data(&self) -> &[u8] {
        &self.write_data
    }

    fn write(&mut self, address: u8, bytes: &[u8]) -> Result<(), ()> {
        self.last_address = Some(address);
        self.write_data = bytes.to_vec();
        Ok(())
    }

    fn read(&mut self, address: u8, buffer: &mut [u8]) -> Result<(), ()> {
        self.last_address = Some(address);
        buffer.copy_from_slice(&self.read_data[..buffer.len()]);
        Ok(())
    }
}

fn setup<'a>(data: &'a [u8]) -> Pcf8574a<I2cMock<'a>> {
    let mut dev = I2cMock::new();
    dev.set_read_data(&data);
    Pcf8574a::new(dev, SlaveAddr::default())
}

fn check_sent_data(expander: Pcf8574a<I2cMock>, data: &[u8]) {
    let dev = expander.destroy();
    assert_eq!(dev.get_last_address(), Some(0b011_1000));
    assert_eq!(dev.get_write_data(), &data[..]);
}

// What the owner of an expander does: it carries out on the bus each transfer
// that the expander hands back, and reports the outcome.

fn send(expander: &mut Pcf8574a<I2cMock>, write: BusWrite) -> Result<(), ()> {
    expander.i2c().write(write.address, &write.bytes)
}

fn set(expander: &mut Pcf8574a<I2cMock>, bits: u8) -> Result<(), Error<()>> {
    let write = expander.set(bits)?;
    let outcome = send(expander, write);
    expander.written(outcome)
}

fn get(expander: &mut Pcf8574a<I2cMock>, mask: PinFlag) -> Result<u8, Error<()>> {
    let prime = expander.get(mask)?;
    let outcome = send(expander, prime);
    let read = expander.primed(outcome)?;
    let mut bits = [0; 1];
    let outcome = expander.i2c().read(read.address, &mut bits[..read.len]);
    expander.sampled(outcome.map(|()| bits))
}

#[test]
fn pcf8574a_can_set_output_values() {
    let status = 0b1010_1010;
    let mut expander = setup(&[0]);
    set(&mut expander, status).unwrap();
    check_sent_data(expander, &[status]);
}

#[test]
fn pcf8574a_can_read_pins() {
    let mut expander = setup(&[0x01]);
    let mask = PinFlag::P0() | PinFlag::P7();
    let status = get(&mut expander, mask).unwrap();
    check_sent_data(expander, &[mask.mask as u8]);
    assert_eq!(0x01, status);
}

#[test]
fn pcf8574a_read_conserves_output_high_pins() {
    let mut expander = setup(&[0x01]);
    let write_status = 0b0101_1010;
    set(&mut expander, write_status).unwrap();
    let mask = PinFlag::P0() | PinFlag::P7();
    let read_status = get(&mut expander, mask).unwrap();
    check_sent_data(expander, &[mask.mask as u8 | write_status]);
    assert_eq!(0x01, read_status);
}

#[test]
fn pcf8574a_answers_to_the_selected_address() {
    let mut expander = Pcf8574a::new(I2cMock::new(), SlaveAddr::Alternative(true, true, false));
    assert_eq!(0b011_1110, expander.address());
    set(&mut expander, 0x5A).unwrap();
    let dev = expander.destroy();
    assert_eq!(dev.get_last_address(), Some(0b011_1110));
    assert_eq!(dev.get_write_data(), &[0x5A]);
}
