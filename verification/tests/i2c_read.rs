//! Read transactions: each length class exercises its own acknowledge/STOP
//! sequencing, and the buffer receives exactly the device's bytes.

use gd32e103_hal::gpio::{Alternate, OpenDrain, Pin};
use gd32e103_hal::i2c::{BlockingI2c, Mode, TransactionError};
use gd32e103_hal::i2c_periph::{BusOp, I2cPeriph, SimDevice};
use gd32e103_hal::rcu::{Apb1, Clocks};
use gd32e103_hal::time::Hertz;

fn clocks() -> Clocks {
    Clocks {
        sysclk: Hertz(72_000_000),
        hclk: Hertz(72_000_000),
        pclk1: Hertz(36_000_000),
        pclk2: Hertz(72_000_000),
    }
}

fn engine(dev: SimDevice) -> BlockingI2c<Pin<Alternate<OpenDrain>>, Pin<Alternate<OpenDrain>>> {
    let scl = Pin::new(1, 8, Alternate { _mode: OpenDrain });
    let sda = Pin::new(1, 9, Alternate { _mode: OpenDrain });
    let mut apb = Apb1::new();
    BlockingI2c::new(
        I2cPeriph::new(dev),
        scl,
        sda,
        Mode::standard(Hertz(100_000)),
        &clocks(),
        &mut apb,
        1,
        1,
        1,
        1,
    )
}

#[test]
fn read_of_one_byte_naks_then_stops_before_the_read() {
    let mut i2c = engine(SimDevice::responsive(vec![0xA5]));
    let mut buffer = vec![0u8; 1];
    assert_eq!(i2c.read(0x3C, &mut buffer), Ok(()));
    assert_eq!(buffer, vec![0xA5]);
    assert_eq!(
        i2c.nb.i2c.log,
        vec![
            BusOp::Start,
            BusOp::Addr { addr: 0x3C, read: true },
            BusOp::AckSet(false),
            BusOp::Stop,
            BusOp::ReadByte,
            BusOp::AckSet(true),
        ]
    );
}

#[test]
fn read_of_two_bytes_pre_arms_the_ack_position() {
    let mut i2c = engine(SimDevice::responsive(vec![0x10, 0x20]));
    let mut buffer = vec![0u8; 2];
    assert_eq!(i2c.read(0x3C, &mut buffer), Ok(()));
    assert_eq!(buffer, vec![0x10, 0x20]);
    assert_eq!(
        i2c.nb.i2c.log,
        vec![
            BusOp::PosSet(true),
            BusOp::AckSet(true),
            BusOp::Start,
            BusOp::Addr { addr: 0x3C, read: true },
            BusOp::AckSet(false),
            BusOp::Stop,
            BusOp::ReadByte,
            BusOp::ReadByte,
            BusOp::PosSet(false),
            BusOp::AckSet(false),
            BusOp::AckSet(true),
        ]
    );
}

#[test]
fn read_of_three_bytes_has_an_empty_leading_group() {
    let mut i2c = engine(SimDevice::responsive(vec![1, 2, 3]));
    let mut buffer = vec![0u8; 3];
    assert_eq!(i2c.read(0x3C, &mut buffer), Ok(()));
    assert_eq!(buffer, vec![1, 2, 3]);
    assert_eq!(
        i2c.nb.i2c.log,
        vec![
            BusOp::Start,
            BusOp::Addr { addr: 0x3C, read: true },
            BusOp::AckSet(true),
            BusOp::AckSet(false),
            BusOp::ReadByte,
            BusOp::Stop,
            BusOp::ReadByte,
            BusOp::ReadByte,
            BusOp::AckSet(true),
        ]
    );
}

#[test]
fn read_of_ten_bytes_reads_seven_then_the_trailing_three() {
    let response: Vec<u8> = (1..=10).collect();
    let mut i2c = engine(SimDevice::responsive(response.clone()));
    let mut buffer = vec![0u8; 10];
    assert_eq!(i2c.read(0x3C, &mut buffer), Ok(()));
    assert_eq!(buffer, response);

    let mut expected = vec![
        BusOp::Start,
        BusOp::Addr { addr: 0x3C, read: true },
        BusOp::AckSet(true),
    ];
    // The leading group: exactly length - 3 plain reads.
    for _ in 0..7 {
        expected.push(BusOp::ReadByte);
    }
    expected.extend(vec![
        BusOp::AckSet(false),
        BusOp::ReadByte,
        BusOp::Stop,
        BusOp::ReadByte,
        BusOp::ReadByte,
        BusOp::AckSet(true),
    ]);
    assert_eq!(i2c.nb.i2c.log, expected);

    let reads = i2c.nb.i2c.log.iter().filter(|op| **op == BusOp::ReadByte).count();
    assert_eq!(reads, 10);
}

#[test]
fn read_from_device_with_too_few_bytes_times_out() {
    let mut i2c = engine(SimDevice::responsive(vec![1, 2]));
    let mut buffer = vec![0u8; 4];
    assert_eq!(i2c.read(0x3C, &mut buffer), Err(TransactionError::Timeout));
    assert_eq!(buffer.len(), 4);
}

#[test]
fn read_address_nak_stops_once_and_propagates() {
    let dev = SimDevice { start_ok: true, ack_addr: false, ack_data: true, response: vec![1, 2] };
    let mut i2c = engine(dev);
    let mut buffer = vec![0u8; 2];
    assert_eq!(i2c.read(0x3C, &mut buffer), Err(TransactionError::Acknowledge));
    assert_eq!(
        i2c.nb.i2c.log,
        vec![
            BusOp::PosSet(true),
            BusOp::AckSet(true),
            BusOp::Start,
            BusOp::Addr { addr: 0x3C, read: true },
            BusOp::Stop,
        ]
    );
}

#[test]
fn read_with_failing_start_reports_timeout_after_retries() {
    let dev = SimDevice { start_ok: false, ack_addr: true, ack_data: true, response: vec![1] };
    let mut i2c = engine(dev);
    let mut buffer = vec![0u8; 1];
    assert_eq!(i2c.read(0x3C, &mut buffer), Err(TransactionError::Timeout));
    assert_eq!(i2c.nb.i2c.log, vec![BusOp::Start, BusOp::Reset]);
}

#[test]
fn extra_device_bytes_are_left_unread() {
    let mut i2c = engine(SimDevice::responsive(vec![9, 8, 7, 6]));
    let mut buffer = vec![0u8; 2];
    assert_eq!(i2c.read(0x3C, &mut buffer), Ok(()));
    assert_eq!(buffer, vec![9, 8]);
}
