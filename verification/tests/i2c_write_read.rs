//! Combined write-then-read transactions.

use gd32e103_hal::gpio::{Alternate, OpenDrain, Pin};
use gd32e103_hal::i2c::{BlockingI2c, Mode, TransactionError};
use gd32e103_hal::i2c_periph::{BusOp, I2cPeriph, SimDevice};
use gd32e103_hal::rcu::{Apb1, Clocks};
use gd32e103_hal::time::Hertz;

fn clocks() -> Clocks {
    Clocks {
        sysclk: Hertz(72_000_000),
        hclk: Hertz(72_000_000),
        pclk1: Hertz(36_000_000),
        pclk2: Hertz(72_000_000),
    }
}

fn engine(dev: SimDevice) -> BlockingI2c<Pin<Alternate<OpenDrain>>, Pin<Alternate<OpenDrain>>> {
    let scl = Pin::new(1, 10, Alternate { _mode: OpenDrain });
    let sda = Pin::new(1, 11, Alternate { _mode: OpenDrain });
    let mut apb = Apb1::new();
    BlockingI2c::new(
        I2cPeriph::new(dev),
        scl,
        sda,
        Mode::standard(Hertz(100_000)),
        &clocks(),
        &mut apb,
        1,
        1,
        1,
        1,
    )
}

#[test]
fn empty_bytes_performs_only_the_read_sequence() {
    let mut i2c = engine(SimDevice::responsive(vec![0x55]));
    let mut buffer = vec![0u8; 1];
    assert_eq!(i2c.write_read(0x3C, &[], &mut buffer), Ok(()));
    assert_eq!(buffer, vec![0x55]);
    // No write-phase action at all: the log is exactly the one-byte read.
    assert_eq!(
        i2c.nb.i2c.log,
        vec![
            BusOp::Start,
            BusOp::Addr { addr: 0x3C, read: true },
            BusOp::AckSet(false),
            BusOp::Stop,
            BusOp::ReadByte,
            BusOp::AckSet(true),
        ]
    );
}

#[test]
fn empty_buffer_performs_write_without_stop_then_an_explicit_stop() {
    let mut i2c = engine(SimDevice::responsive(Vec::new()));
    let mut buffer: Vec<u8> = Vec::new();
    assert_eq!(i2c.write_read(0x3C, &[7, 8], &mut buffer), Ok(()));
    assert_eq!(
        i2c.nb.i2c.log,
        vec![
            BusOp::Start,
            BusOp::Addr { addr: 0x3C, read: false },
            BusOp::WriteByte(7),
            BusOp::WriteByte(8),
            BusOp::Stop,
        ]
    );
}

#[test]
fn both_empty_is_a_no_op() {
    let mut i2c = engine(SimDevice::responsive(Vec::new()));
    let mut buffer: Vec<u8> = Vec::new();
    assert_eq!(i2c.write_read(0x3C, &[], &mut buffer), Ok(()));
    assert!(i2c.nb.i2c.log.is_empty());
}

#[test]
fn write_then_read_uses_a_repeated_start() {
    let mut i2c = engine(SimDevice::responsive(vec![0xDE, 0xAD]));
    let mut buffer = vec![0u8; 2];
    assert_eq!(i2c.write_read(0x3C, &[0x42], &mut buffer), Ok(()));
    assert_eq!(buffer, vec![0xDE, 0xAD]);
    assert_eq!(
        i2c.nb.i2c.log,
        vec![
            // Write phase, without a closing STOP.
            BusOp::Start,
            BusOp::Addr { addr: 0x3C, read: false },
            BusOp::WriteByte(0x42),
            // Read phase: its START acts as a repeated start.
            BusOp::PosSet(true),
            BusOp::AckSet(true),
            BusOp::Start,
            BusOp::Addr { addr: 0x3C, read: true },
            BusOp::AckSet(false),
            BusOp::Stop,
            BusOp::ReadByte,
            BusOp::ReadByte,
            BusOp::PosSet(false),
            BusOp::AckSet(false),
            BusOp::AckSet(true),
        ]
    );
}

#[test]
fn write_phase_failure_skips_the_read() {
    let dev = SimDevice { start_ok: true, ack_addr: false, ack_data: true, response: vec![1] };
    let mut i2c = engine(dev);
    let mut buffer = vec![0u8; 1];
    assert_eq!(
        i2c.write_read(0x3C, &[1], &mut buffer),
        Err(TransactionError::Acknowledge)
    );
    assert_eq!(
        i2c.nb.i2c.log,
        vec![
            BusOp::Start,
            BusOp::Addr { addr: 0x3C, read: false },
            BusOp::Stop,
        ]
    );
}

#[test]
fn read_phase_timeout_propagates_after_a_good_write() {
    let mut i2c = engine(SimDevice::responsive(vec![1]));
    let mut buffer = vec![0u8; 3];
    assert_eq!(
        i2c.write_read(0x3C, &[5], &mut buffer),
        Err(TransactionError::Timeout)
    );
}
