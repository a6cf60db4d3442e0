//! Clock programming: rise-time and divisor register values per mode.

use gd32e103_hal::gpio::{Alternate, OpenDrain, Pin};
use gd32e103_hal::i2c::{clock_divisor, rise_time, BlockingI2c, DutyCycle, Mode};
use gd32e103_hal::i2c_periph::{I2cPeriph, SimDevice};
use gd32e103_hal::rcu::{Apb1, Clocks};
use gd32e103_hal::time::Hertz;

fn clocks() -> Clocks {
    Clocks {
        sysclk: Hertz(72_000_000),
        hclk: Hertz(72_000_000),
        pclk1: Hertz(36_000_000),
        pclk2: Hertz(72_000_000),
    }
}

fn scl() -> Pin<Alternate<OpenDrain>> {
    Pin::new(1, 6, Alternate { _mode: OpenDrain })
}

fn sda() -> Pin<Alternate<OpenDrain>> {
    Pin::new(1, 7, Alternate { _mode: OpenDrain })
}

#[test]
fn standard_mode_programs_rise_time_and_divisor() {
    let mode = Mode::standard(Hertz(100_000));
    assert_eq!(rise_time(&mode, 36_000_000), 37);
    assert_eq!(clock_divisor(&mode, 36_000_000), 180);
}

#[test]
fn standard_mode_divisor_floors_at_four() {
    let mode = Mode::standard(Hertz(100_000));
    // 400 kHz peripheral clock: the raw quotient is 2, floored to 4.
    assert_eq!(clock_divisor(&mode, 400_000), 4);
}

#[test]
fn fast_mode_two_to_one_divisor_and_rise_time() {
    let mode = Mode::fast(Hertz(400_000), DutyCycle::Ratio2to1);
    assert_eq!(clock_divisor(&mode, 36_000_000), 30);
    assert_eq!(rise_time(&mode, 36_000_000), 11);
}

#[test]
fn fast_mode_sixteen_to_nine_divisor() {
    let mode = Mode::fast(Hertz(400_000), DutyCycle::Ratio16to9);
    assert_eq!(clock_divisor(&mode, 36_000_000), 3);
}

#[test]
fn fast_mode_divisor_floors_at_one() {
    let mode = Mode::fast(Hertz(400_000), DutyCycle::Ratio2to1);
    // 1 MHz peripheral clock: the raw quotient is 0, floored to 1.
    assert_eq!(clock_divisor(&mode, 1_000_000), 1);
}

#[test]
fn construction_programs_the_clock_registers() {
    let clocks = clocks();
    let mut apb = Apb1::new();
    let dev = SimDevice::responsive(Vec::new());
    let i2c = BlockingI2c::new(
        I2cPeriph::new(dev),
        scl(),
        sda(),
        Mode::standard(Hertz(100_000)),
        &clocks,
        &mut apb,
        10,
        2,
        10,
        10,
    );
    assert_eq!(i2c.nb.i2c.i2cclk, 36);
    assert_eq!(i2c.nb.i2c.risetime, 37);
    assert_eq!(i2c.nb.i2c.clkc, 180);
    assert!(!i2c.nb.i2c.dtcy);
    assert!(!i2c.nb.i2c.fast);
    assert!(i2c.nb.i2c.i2cen);
    // Timeout budgets are microsecond budgets scaled by the system clock MHz.
    assert_eq!(i2c.start_timeout, 720);
    assert_eq!(i2c.addr_timeout, 720);
    assert_eq!(i2c.data_timeout, 720);
    assert_eq!(i2c.start_retries, 2);
}

#[test]
fn fast_construction_sets_duty_and_fast_bits() {
    let clocks = clocks();
    let mut apb = Apb1::new();
    let dev = SimDevice::responsive(Vec::new());
    let i2c = BlockingI2c::new(
        I2cPeriph::new(dev),
        scl(),
        sda(),
        Mode::fast(Hertz(400_000), DutyCycle::Ratio16to9),
        &clocks,
        &mut apb,
        10,
        1,
        10,
        10,
    );
    assert_eq!(i2c.nb.i2c.clkc, 3);
    assert!(i2c.nb.i2c.dtcy);
    assert!(i2c.nb.i2c.fast);
}

#[test]
fn get_frequency_returns_the_configured_frequency() {
    assert_eq!(Mode::standard(Hertz(100_000)).get_frequency(), Hertz(100_000));
    assert_eq!(
        Mode::fast(Hertz(400_000), DutyCycle::Ratio2to1).get_frequency(),
        Hertz(400_000)
    );
}

#[test]
fn hertz_helpers_scale() {
    assert_eq!(Hertz::hz(7), Hertz(7));
    assert_eq!(Hertz::khz(100), Hertz(100_000));
    assert_eq!(Hertz::mhz(36), Hertz(36_000_000));
}
