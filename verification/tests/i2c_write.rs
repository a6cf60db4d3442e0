//! Write transactions: the exact bus-action trace for success, address or
//! data NAK, and exhausted START retries.

use gd32e103_hal::gpio::{Alternate, OpenDrain, Pin};
use gd32e103_hal::i2c::{BlockingI2c, Mode, TransactionError};
use gd32e103_hal::i2c_periph::{BusOp, I2cPeriph, SimDevice};
use gd32e103_hal::rcu::{Apb1, Clocks};
use gd32e103_hal::time::Hertz;

fn clocks() -> Clocks {
    Clocks {
        sysclk: Hertz(72_000_000),
        hclk: Hertz(72_000_000),
        pclk1: Hertz(36_000_000),
        pclk2: Hertz(72_000_000),
    }
}

fn engine(dev: SimDevice, retries: u8) -> BlockingI2c<Pin<Alternate<OpenDrain>>, Pin<Alternate<OpenDrain>>> {
    let scl = Pin::new(1, 6, Alternate { _mode: OpenDrain });
    let sda = Pin::new(1, 7, Alternate { _mode: OpenDrain });
    let mut apb = Apb1::new();
    BlockingI2c::new(
        I2cPeriph::new(dev),
        scl,
        sda,
        Mode::standard(Hertz(100_000)),
        &clocks(),
        &mut apb,
        1,
        retries,
        1,
        1,
    )
}

#[test]
fn write_to_acking_device_produces_one_exact_transaction() {
    let mut i2c = engine(SimDevice::responsive(Vec::new()), 1);
    let result = i2c.write(0x50, &[0x01, 0x02]);
    assert_eq!(result, Ok(()));
    assert_eq!(
        i2c.nb.i2c.log,
        vec![
            BusOp::Start,
            BusOp::Addr { addr: 0x50, read: false },
            BusOp::WriteByte(0x01),
            BusOp::WriteByte(0x02),
            BusOp::Stop,
        ]
    );
}

#[test]
fn address_nak_issues_exactly_one_stop_before_the_error() {
    let dev = SimDevice { start_ok: true, ack_addr: false, ack_data: true, response: Vec::new() };
    let mut i2c = engine(dev, 1);
    let result = i2c.write(0x50, &[0x01]);
    assert_eq!(result, Err(TransactionError::Acknowledge));
    let log = &i2c.nb.i2c.log;
    assert_eq!(
        log,
        &vec![BusOp::Start, BusOp::Addr { addr: 0x50, read: false }, BusOp::Stop]
    );
    let stops = log.iter().filter(|op| **op == BusOp::Stop).count();
    assert_eq!(stops, 1);
}

#[test]
fn data_nak_writes_one_byte_then_stops() {
    let dev = SimDevice { start_ok: true, ack_addr: true, ack_data: false, response: Vec::new() };
    let mut i2c = engine(dev, 1);
    let result = i2c.write(0x2A, &[0xAA, 0xBB, 0xCC]);
    assert_eq!(result, Err(TransactionError::Acknowledge));
    assert_eq!(
        i2c.nb.i2c.log,
        vec![
            BusOp::Start,
            BusOp::Addr { addr: 0x2A, read: false },
            BusOp::WriteByte(0xAA),
            BusOp::Stop,
        ]
    );
}

#[test]
fn failing_start_is_retried_with_one_reset_per_attempt() {
    let dev = SimDevice { start_ok: false, ack_addr: true, ack_data: true, response: Vec::new() };
    let mut i2c = engine(dev, 3);
    let result = i2c.write(0x50, &[0x01]);
    assert_eq!(result, Err(TransactionError::Timeout));
    assert_eq!(
        i2c.nb.i2c.log,
        vec![
            BusOp::Start,
            BusOp::Reset,
            BusOp::Start,
            BusOp::Reset,
            BusOp::Start,
            BusOp::Reset,
        ]
    );
    let resets = i2c.nb.i2c.log.iter().filter(|op| **op == BusOp::Reset).count();
    assert_eq!(resets, 3);
}

#[test]
fn engine_is_reusable_after_an_error() {
    let dev = SimDevice { start_ok: true, ack_addr: false, ack_data: true, response: Vec::new() };
    let mut i2c = engine(dev, 1);
    assert_eq!(i2c.write(0x11, &[1]), Err(TransactionError::Acknowledge));
    // The device now acknowledges; the engine must be in a clean state.
    i2c.nb.i2c.dev.ack_addr = true;
    let before = i2c.nb.i2c.log.len();
    assert_eq!(i2c.write(0x11, &[1]), Ok(()));
    assert_eq!(
        i2c.nb.i2c.log[before..].to_vec(),
        vec![
            BusOp::Start,
            BusOp::Addr { addr: 0x11, read: false },
            BusOp::WriteByte(1),
            BusOp::Stop,
        ]
    );
}

#[test]
fn free_returns_the_peripheral_and_pins() {
    let mut i2c = engine(SimDevice::responsive(Vec::new()), 1);
    i2c.write(0x08, &[9]).unwrap();
    let (periph, scl, sda) = i2c.nb.free();
    assert_eq!(periph.log.len(), 4);
    assert_eq!(scl.pin, 6);
    assert_eq!(sda.pin, 7);
}
