//! Inter-Integrated Circuit (I2C) bus master engine.
//!
//! The engine drives the register-level model in [`crate::i2c_periph`]: the
//! non-blocking protocol primitives live on [`I2c`], and [`BlockingI2c`] wraps
//! them with cycle-counted busy-waits, START retry, and the exact
//! length-dependent write and read sequences. The contract of every public
//! operation states the precise sequence of bus-level actions it appends to
//! the controller's log.

use crate::i2c_periph::{
    same_ack_control, same_clock_config, same_data_path, same_device, same_error_flags,
    same_seq_flags, BusOp, I2cPeriph, PollOutcome, SimDevice, StatusFlag, WaitOutcome,
};
use crate::rcu::{Apb1, Clocks};
use crate::time::Hertz;
use vstd::prelude::*;

verus! {

/// A hardware-reported bus condition, as classified by the status decoder.
#[derive(Clone, Copy, Debug, PartialEq, Eq, Structural)]
#[non_exhaustive]
pub enum Error {
    /// Electrical bus error detected by the hardware.
    Bus,
    /// Arbitration lost to another master.
    Arbitration,
    /// The addressed device or a byte was not acknowledged.
    Acknowledge,
    /// Receive overrun or transmit underrun.
    Overrun,
}

/// The outcome classification of a blocking transaction.
#[derive(Clone, Copy, Debug, PartialEq, Eq, Structural)]
pub enum TransactionError {
    /// Electrical bus error detected by the hardware.
    Bus,
    /// Arbitration lost to another master.
    Arbitration,
    /// The addressed device or a byte was not acknowledged.
    Acknowledge,
    /// Receive overrun or transmit underrun.
    Overrun,
    /// A busy-wait exceeded its cycle budget.
    Timeout,
}

/// Lifts a decoder-reported error into a transaction error.
pub open spec fn spec_lift_error(e: Error) -> TransactionError {
    match e {
        Error::Bus => TransactionError::Bus,
        Error::Arbitration => TransactionError::Arbitration,
        Error::Acknowledge => TransactionError::Acknowledge,
        Error::Overrun => TransactionError::Overrun,
    }
}

/// Lifts a decoder-reported error into a transaction error.
pub fn lift_error(e: Error) -> (r: TransactionError)
    ensures
        r == spec_lift_error(e),
{
    match e {
        Error::Bus => TransactionError::Bus,
        Error::Arbitration => TransactionError::Arbitration,
        Error::Acknowledge => TransactionError::Acknowledge,
        Error::Overrun => TransactionError::Overrun,
    }
}

/// Fast-mode clock duty cycle.
#[derive(Clone, Copy, Debug, PartialEq, Eq, Structural)]
pub enum DutyCycle {
    /// Low period twice the high period.
    Ratio2to1,
    /// Low period sixteen ninths of the high period.
    Ratio16to9,
}

/// Bus mode: standard up to 100 kHz, fast up to 400 kHz with a selectable
/// duty cycle.
#[derive(Clone, Copy, Debug, PartialEq, Eq, Structural)]
pub enum Mode {
    Standard { frequency: Hertz },
    Fast { frequency: Hertz, duty_cycle: DutyCycle },
}

impl Mode {
    /// Builds a standard-mode configuration at the given bus frequency.
    pub fn standard(frequency: Hertz) -> (r: Mode)
        ensures
            r == (Mode::Standard { frequency }),
    {
        Mode::Standard { frequency }
    }

    /// Builds a fast-mode configuration at the given bus frequency and duty
    /// cycle.
    pub fn fast(frequency: Hertz, duty_cycle: DutyCycle) -> (r: Mode)
        ensures
            r == (Mode::Fast { frequency, duty_cycle }),
    {
        Mode::Fast { frequency, duty_cycle }
    }

    /// Returns the configured bus frequency.
    pub fn get_frequency(&self) -> (r: Hertz)
        ensures
            r.0 == spec_frequency(*self),
    {
        match *self {
            Mode::Standard { frequency } => frequency,
            Mode::Fast { frequency, .. } => frequency,
        }
    }
}

/// The bus frequency a mode asks for, in hertz.
pub open spec fn spec_frequency(mode: Mode) -> int {
    match mode {
        Mode::Standard { frequency } => frequency.0 as int,
        Mode::Fast { frequency, .. } => frequency.0 as int,
    }
}

/// A mode the engine accepts: a nonzero frequency not above 400 kHz. A higher
/// frequency is a programming error, fatal at construction.
pub open spec fn mode_ok(mode: Mode) -> bool {
    1 <= spec_frequency(mode) <= 400_000
}

/// The peripheral clock in whole MHz, as programmed into the clock control
/// field.
pub open spec fn spec_pclk_mhz(pclk1: u32) -> int {
    pclk1 as int / 1_000_000
}

/// The value of the rise-time register for a mode: the peripheral clock in
/// MHz plus one in standard mode, and a 300 ns budget scaled to clock ticks
/// plus one in fast mode, truncated to the 8-bit register field.
pub open spec fn spec_risetime(mode: Mode, pclk1: u32) -> int {
    match mode {
        Mode::Standard { .. } => (spec_pclk_mhz(pclk1) + 1) % 256,
        Mode::Fast { .. } => (spec_pclk_mhz(pclk1) * 300 / 1000 + 1) % 256,
    }
}

/// The clock divisor for a mode: the peripheral clock divided by twice the
/// bus frequency in standard mode (floored at 4), and by three or twenty-five
/// times the bus frequency in fast mode (floored at 1), truncated to the
/// 16-bit register field before flooring.
pub open spec fn spec_clkc(mode: Mode, pclk1: u32) -> int {
    match mode {
        Mode::Standard { frequency } => {
            let raw = (pclk1 as int / (frequency.0 as int * 2)) % 65536;
            if raw < 4 {
                4
            } else {
                raw
            }
        },
        Mode::Fast { frequency, duty_cycle } => {
            let raw = match duty_cycle {
                DutyCycle::Ratio2to1 => (pclk1 as int / (frequency.0 as int * 3)) % 65536,
                DutyCycle::Ratio16to9 => (pclk1 as int / (frequency.0 as int * 25)) % 65536,
            };
            if raw < 1 {
                1
            } else {
                raw
            }
        },
    }
}

/// The fast-mode duty bit: set exactly for the sixteen-to-nine ratio.
pub open spec fn spec_duty_bit(mode: Mode) -> bool {
    match mode {
        Mode::Standard { .. } => false,
        Mode::Fast { duty_cycle, .. } => duty_cycle == DutyCycle::Ratio16to9,
    }
}

/// The fast-mode bit: set exactly in fast mode.
pub open spec fn spec_fast_bit(mode: Mode) -> bool {
    mode is Fast
}

/// Computes the rise-time register value for a mode and peripheral clock.
pub fn rise_time(mode: &Mode, pclk1: u32) -> (r: u8)
    ensures
        r as int == spec_risetime(*mode, pclk1),
{
    let mhz: u32 = pclk1 / 1_000_000;
    match *mode {
        Mode::Standard { .. } => ((mhz + 1) % 256) as u8,
        Mode::Fast { .. } => ((mhz * 300 / 1000 + 1) % 256) as u8,
    }
}

/// Computes the clock-divisor register value for a mode and peripheral
/// clock.
pub fn clock_divisor(mode: &Mode, pclk1: u32) -> (r: u16)
    requires
        mode_ok(*mode),
    ensures
        r as int == spec_clkc(*mode, pclk1),
{
    match *mode {
        Mode::Standard { frequency } => {
            let raw: u32 = (pclk1 / (frequency.0 * 2)) % 65536;
            if raw < 4 {
                4
            } else {
                raw as u16
            }
        },
        Mode::Fast { frequency, duty_cycle } => {
            let raw: u32 = match duty_cycle {
                DutyCycle::Ratio2to1 => (pclk1 / (frequency.0 * 3)) % 65536,
                DutyCycle::Ratio16to9 => (pclk1 / (frequency.0 * 25)) % 65536,
            };
            if raw < 1 {
                1
            } else {
                raw as u16
            }
        },
    }
}

/// Marker trait for pins that can serve as the I2C clock line. The pin must
/// already be configured for open-drain alternate-function operation.
pub trait SclPin {

}

/// Marker trait for pins that can serve as the I2C data line. The pin must
/// already be configured for open-drain alternate-function operation.
pub trait SdaPin {

}

impl SclPin for crate::gpio::Pin<crate::gpio::Alternate<crate::gpio::OpenDrain>> {

}

impl SdaPin for crate::gpio::Pin<crate::gpio::Alternate<crate::gpio::OpenDrain>> {

}

/// I2C peripheral operating in master mode: the non-blocking protocol
/// primitives over the controller model, together with the clock programming
/// that runs at construction.
pub struct I2c<SCL, SDA> {
    /// The controller register block and its environment.
    pub i2c: I2cPeriph,
    /// The clock line, owned for the driver's lifetime.
    pub scl_pin: SCL,
    /// The data line, owned for the driver's lifetime.
    pub sda_pin: SDA,
    /// The active bus mode.
    pub mode: Mode,
    /// The resolved peripheral clock frequency in hertz.
    pub pclk1: u32,
}

impl<SCL, SDA> I2c<SCL, SDA> {
    /// The engine's own invariant: the stored mode is one the engine accepts.
    pub open spec fn wf(self) -> bool {
        mode_ok(self.mode)
    }

    /// The pins, the mode, and the recorded peripheral clock of `self` and
    /// `b` agree.
    pub open spec fn same_identity(self, b: I2c<SCL, SDA>) -> bool {
        &&& self.scl_pin == b.scl_pin
        &&& self.sda_pin == b.sda_pin
        &&& self.mode == b.mode
        &&& self.pclk1 == b.pclk1
    }

    /// The clock registers hold exactly the values computed for the stored
    /// mode and peripheral clock, and the peripheral is enabled.
    pub open spec fn clock_programmed(self) -> bool {
        &&& self.i2c.i2cclk as int == spec_pclk_mhz(self.pclk1) % 256
        &&& self.i2c.risetime as int == spec_risetime(self.mode, self.pclk1)
        &&& self.i2c.clkc as int == spec_clkc(self.mode, self.pclk1)
        &&& self.i2c.dtcy == spec_duty_bit(self.mode)
        &&& self.i2c.fast == spec_fast_bit(self.mode)
        &&& self.i2c.i2cen
    }

    /// Configures the I2C peripheral to work in master mode: takes ownership
    /// of the register block and the two signal lines, enables the
    /// peripheral's bus gating, and programs the clock registers.
    pub fn new(
        i2c: I2cPeriph,
        scl_pin: SCL,
        sda_pin: SDA,
        mode: Mode,
        clocks: &Clocks,
        apb: &mut Apb1,
    ) -> (r: I2c<SCL, SDA>) where SCL: SclPin, SDA: SdaPin
        requires
            mode_ok(mode),
        ensures
            r.wf(),
            r.mode == mode,
            r.pclk1 == clocks.pclk1.0,
            r.scl_pin == scl_pin,
            r.sda_pin == sda_pin,
            same_device(i2c, r.i2c),
            same_error_flags(i2c, r.i2c),
            same_seq_flags(i2c, r.i2c),
            same_data_path(i2c, r.i2c),
            r.i2c.log@ == i2c.log@,
            r.i2c.cycles == i2c.cycles,
            r.clock_programmed(),
            !r.i2c.acken && !r.i2c.poap,
            final(apb).enables == (if old(apb).enables == u32::MAX {
                old(apb).enables
            } else {
                (old(apb).enables + 1) as u32
            }),
    {
        apb.enables = if apb.enables == u32::MAX {
            apb.enables
        } else {
            apb.enables + 1
        };
        let mut r = I2c { i2c, scl_pin, sda_pin, mode, pclk1: clocks.pclk1.0 };
        r.init();
        r
    }

    /// Programs the rise-time, clock-control, and clock-divisor registers
    /// from the stored mode and peripheral clock. The peripheral enable bit
    /// is cleared before programming and set after; the full control-register
    /// write also clears the acknowledge control bits.
    fn init(&mut self)
        requires
            mode_ok(old(self).mode),
        ensures
            final(self).same_identity(*old(self)),
            same_device(old(self).i2c, final(self).i2c),
            same_error_flags(old(self).i2c, final(self).i2c),
            same_seq_flags(old(self).i2c, final(self).i2c),
            same_data_path(old(self).i2c, final(self).i2c),
            final(self).i2c.log@ == old(self).i2c.log@,
            final(self).i2c.cycles == old(self).i2c.cycles,
            final(self).clock_programmed(),
            !final(self).i2c.acken && !final(self).i2c.poap,
    {
        let mhz: u32 = self.pclk1 / 1_000_000;
        self.i2c.i2cclk = (mhz % 256) as u8;
        self.i2c.i2cen = false;
        self.i2c.acken = false;
        self.i2c.poap = false;
        self.i2c.risetime = rise_time(&self.mode, self.pclk1);
        self.i2c.clkc = clock_divisor(&self.mode, self.pclk1);
        self.i2c.dtcy = match self.mode {
            Mode::Standard { .. } => false,
            Mode::Fast { duty_cycle, .. } => match duty_cycle {
                DutyCycle::Ratio2to1 => false,
                DutyCycle::Ratio16to9 => true,
            },
        };
        self.i2c.fast = match self.mode {
            Mode::Standard { .. } => false,
            Mode::Fast { .. } => true,
        };
        self.i2c.i2cen = true;
    }

    /// Performs an I2C software reset: asserts the software-reset control
    /// bit, clears the configuration registers, and re-runs the clock
    /// programming. Used to absorb the erratum where a misplaced STOP leaves
    /// the controller unable to generate a fresh START.
    pub fn reset(&mut self)
        requires
            mode_ok(old(self).mode),
        ensures
            final(self).same_identity(*old(self)),
            same_device(old(self).i2c, final(self).i2c),
            final(self).i2c.log@ == old(self).i2c.log@.push(BusOp::Reset),
            final(self).i2c.cycles == old(self).i2c.cycles,
            final(self).clock_programmed(),
            final(self).i2c.quiescent(),
            !final(self).i2c.tbe && !final(self).i2c.btc && !final(self).i2c.rbne,
            !final(self).i2c.acken && !final(self).i2c.poap,
            final(self).i2c.rx_taken == 0,
            final(self).i2c.data == 0,
    {
        self.i2c.log.push(BusOp::Reset);
        self.i2c.berr = false;
        self.i2c.lostarb = false;
        self.i2c.aerr = false;
        self.i2c.ouerr = false;
        self.i2c.sbsend = false;
        self.i2c.addsend = false;
        self.i2c.tbe = false;
        self.i2c.btc = false;
        self.i2c.rbne = false;
        self.i2c.acken = false;
        self.i2c.poap = false;
        self.i2c.rx_taken = 0;
        self.i2c.data = 0;
        self.init();
    }

    /// Generates a START condition. Side effect only; completion is observed
    /// separately through [`I2c::wait_after_sent_start`].
    pub fn send_start(&mut self)
        ensures
            final(self).same_identity(*old(self)),
            same_device(old(self).i2c, final(self).i2c),
            same_clock_config(old(self).i2c, final(self).i2c),
            same_error_flags(old(self).i2c, final(self).i2c),
            same_data_path(old(self).i2c, final(self).i2c),
            same_ack_control(old(self).i2c, final(self).i2c),
            final(self).i2c.cycles == old(self).i2c.cycles,
            final(self).i2c.log@ == old(self).i2c.log@.push(BusOp::Start),
            final(self).i2c.sbsend == old(self).i2c.dev.start_ok,
            final(self).i2c.addsend == old(self).i2c.addsend,
            final(self).i2c.tbe == old(self).i2c.tbe,
            final(self).i2c.btc == old(self).i2c.btc,
            final(self).i2c.rbne == old(self).i2c.rbne,
    {
        self.i2c.set_start();
    }

    /// Checks once whether the START condition has been generated, through
    /// the status decoder.
    pub fn wait_after_sent_start(&mut self) -> (r: PollOutcome)
        ensures
            final(self).same_identity(*old(self)),
            same_device(old(self).i2c, final(self).i2c),
            same_clock_config(old(self).i2c, final(self).i2c),
            same_seq_flags(old(self).i2c, final(self).i2c),
            same_data_path(old(self).i2c, final(self).i2c),
            same_ack_control(old(self).i2c, final(self).i2c),
            final(self).i2c.log@ == old(self).i2c.log@,
            final(self).i2c.cycles == old(self).i2c.cycles,
            old(self).i2c.error_pending() ==> {
                &&& r == PollOutcome::Failed(old(self).i2c.pending_error())
                &&& !final(self).i2c.error_pending() || old(self).i2c.pending_error()
                    != final(self).i2c.pending_error()
            },
            !old(self).i2c.error_pending() ==> {
                &&& same_error_flags(old(self).i2c, final(self).i2c)
                &&& r == (if old(self).i2c.sbsend {
                    PollOutcome::Ready
                } else {
                    PollOutcome::NotYet
                })
            },
    {
        self.i2c.check_event(StatusFlag::Sbsend)
    }

    /// Checks once whether the STOP condition has fully completed. In this
    /// model a requested STOP always completes before it is next observed,
    /// so the check reports ready.
    pub fn wait_for_stop(&mut self) -> (r: PollOutcome)
        ensures
            *final(self) == *old(self),
            r == PollOutcome::Ready,
    {
        PollOutcome::Ready
    }

    /// Sends the 7-bit address with the read/write direction bit in the
    /// lowest bit, initiating address-phase clocking.
    pub fn send_addr(&mut self, addr: u8, read: bool)
        requires
            addr < 128,
        ensures
            final(self).same_identity(*old(self)),
            same_device(old(self).i2c, final(self).i2c),
            same_clock_config(old(self).i2c, final(self).i2c),
            same_ack_control(old(self).i2c, final(self).i2c),
            final(self).i2c.cycles == old(self).i2c.cycles,
            final(self).i2c.log@ == old(self).i2c.log@.push(BusOp::Addr { addr, read }),
            final(self).i2c.berr == old(self).i2c.berr,
            final(self).i2c.lostarb == old(self).i2c.lostarb,
            final(self).i2c.ouerr == old(self).i2c.ouerr,
            final(self).i2c.aerr == (old(self).i2c.aerr || !old(self).i2c.dev.ack_addr),
            !final(self).i2c.sbsend,
            final(self).i2c.addsend == old(self).i2c.dev.ack_addr,
            final(self).i2c.rx_taken == 0,
            read && old(self).i2c.dev.ack_addr ==> {
                &&& final(self).i2c.rbne == (old(self).i2c.dev.response@.len() >= 1)
                &&& final(self).i2c.btc == (old(self).i2c.dev.response@.len() >= 2)
                &&& !final(self).i2c.tbe
            },
            !read && old(self).i2c.dev.ack_addr ==> {
                &&& final(self).i2c.tbe
                &&& !final(self).i2c.btc
                &&& !final(self).i2c.rbne
            },
            !old(self).i2c.dev.ack_addr ==> {
                &&& !final(self).i2c.tbe
                &&& !final(self).i2c.btc
                &&& !final(self).i2c.rbne
            },
    {
        self.i2c.write_addr_byte(addr, read);
    }

    /// Generates a STOP condition.
    pub fn send_stop(&mut self)
        ensures
            final(self).same_identity(*old(self)),
            same_device(old(self).i2c, final(self).i2c),
            same_clock_config(old(self).i2c, final(self).i2c),
            same_error_flags(old(self).i2c, final(self).i2c),
            same_seq_flags(old(self).i2c, final(self).i2c),
            same_data_path(old(self).i2c, final(self).i2c),
            same_ack_control(old(self).i2c, final(self).i2c),
            final(self).i2c.cycles == old(self).i2c.cycles,
            final(self).i2c.log@ == old(self).i2c.log@.push(BusOp::Stop),
    {
        self.i2c.set_stop();
    }

    /// Releases the I2C peripheral and associated pins.
    pub fn free(self) -> (r: (I2cPeriph, SCL, SDA))
        ensures
            r.0 == self.i2c,
            r.1 == self.scl_pin,
            r.2 == self.sda_pin,
    {
        (self.i2c, self.scl_pin, self.sda_pin)
    }
}

/// The bus-level actions of `n` failed START attempts: each attempt requests
/// a START and, after its wait runs out, performs a full soft reset.
pub open spec fn failed_start_ops(n: nat) -> Seq<BusOp>
    decreases n,
{
    if n == 0 {
        Seq::empty()
    } else {
        failed_start_ops((n - 1) as nat) + seq![BusOp::Start, BusOp::Reset]
    }
}

/// The data-phase actions of a write: one byte clocked out per input byte,
/// in order.
pub open spec fn write_byte_ops(bytes: Seq<u8>) -> Seq<BusOp>
    decreases bytes.len(),
{
    if bytes.len() == 0 {
        Seq::empty()
    } else {
        write_byte_ops(bytes.drop_last()).push(BusOp::WriteByte(bytes.last()))
    }
}

/// The outcome of a write transaction against a device: a timeout when no
/// START ever completes, an acknowledge failure when the address or a data
/// byte is not acknowledged, and success otherwise.
pub open spec fn write_outcome(d: SimDevice) -> Result<(), TransactionError> {
    if !d.start_ok {
        Err(TransactionError::Timeout)
    } else if !d.ack_addr {
        Err(TransactionError::Acknowledge)
    } else if !d.ack_data {
        Err(TransactionError::Acknowledge)
    } else {
        Ok(())
    }
}

/// The exact bus-level actions of a write without the trailing STOP, for
/// each device behaviour: the full retry trace when START never completes; a
/// START, the address, and the cleanup STOP on an address NAK; the address
/// phase and every data byte on success; and the address phase, the first
/// data byte, and the cleanup STOP on a data NAK.
pub open spec fn write_nostop_ops(addr: u8, bytes: Seq<u8>, d: SimDevice, retries: u8) -> Seq<
    BusOp,
> {
    if !d.start_ok {
        failed_start_ops(retries as nat)
    } else if !d.ack_addr {
        seq![BusOp::Start, BusOp::Addr { addr, read: false }, BusOp::Stop]
    } else if d.ack_data {
        seq![BusOp::Start, BusOp::Addr { addr, read: false }] + write_byte_ops(bytes)
    } else {
        seq![
            BusOp::Start,
            BusOp::Addr { addr, read: false },
            BusOp::WriteByte(bytes[0]),
            BusOp::Stop,
        ]
    }
}

/// The exact bus-level actions of a complete write: the write frame, closed
/// by a STOP when the transaction succeeded.
pub open spec fn write_ops(addr: u8, bytes: Seq<u8>, d: SimDevice, retries: u8) -> Seq<BusOp> {
    if write_outcome(d) is Ok {
        write_nostop_ops(addr, bytes, d, retries).push(BusOp::Stop)
    } else {
        write_nostop_ops(addr, bytes, d, retries)
    }
}

/// The outcome of a read of `n` bytes against a device: a timeout when no
/// START ever completes or when the device has fewer than `n` bytes to give,
/// an acknowledge failure when the address is not acknowledged, and success
/// otherwise.
pub open spec fn read_outcome(d: SimDevice, n: nat) -> Result<(), TransactionError> {
    if !d.start_ok {
        Err(TransactionError::Timeout)
    } else if !d.ack_addr {
        Err(TransactionError::Acknowledge)
    } else if d.response@.len() < n {
        Err(TransactionError::Timeout)
    } else {
        Ok(())
    }
}

/// The control actions a read arms before its START: only the two-byte
/// branch pre-arms the acknowledge-position control and re-enables
/// acknowledgement.
pub open spec fn read_arm_ops(n: nat) -> Seq<BusOp> {
    if n == 2 {
        seq![BusOp::PosSet(true), BusOp::AckSet(true)]
    } else {
        Seq::empty()
    }
}

/// The exact bus-level actions of a successful read of `n >= 1` bytes,
/// including the arming actions: the three length-dependent branches each
/// sequence acknowledge control, STOP generation, and the data reads
/// differently, as the peripheral's acknowledge timing requires.
pub open spec fn read_frame_ops(addr: u8, n: nat) -> Seq<BusOp> {
    if n == 1 {
        seq![
            BusOp::Start,
            BusOp::Addr { addr, read: true },
            BusOp::AckSet(false),
            BusOp::Stop,
            BusOp::ReadByte,
            BusOp::AckSet(true),
        ]
    } else if n == 2 {
        seq![
            BusOp::PosSet(true),
            BusOp::AckSet(true),
            BusOp::Start,
            BusOp::Addr { addr, read: true },
            BusOp::AckSet(false),
            BusOp::Stop,
            BusOp::ReadByte,
            BusOp::ReadByte,
            BusOp::PosSet(false),
            BusOp::AckSet(false),
            BusOp::AckSet(true),
        ]
    } else {
        seq![BusOp::Start, BusOp::Addr { addr, read: true }, BusOp::AckSet(true)] + Seq::new(
            (n - 3) as nat,
            |i: int| BusOp::ReadByte,
        ) + seq![
            BusOp::AckSet(false),
            BusOp::ReadByte,
            BusOp::Stop,
            BusOp::ReadByte,
            BusOp::ReadByte,
            BusOp::AckSet(true),
        ]
    }
}

/// The outcome of a combined write-then-read: the write phase's failure when
/// there are bytes to write and it fails, otherwise the read phase's outcome
/// when there are bytes to read, otherwise success.
pub open spec fn write_read_outcome(d: SimDevice, blen: nat, rlen: nat) -> Result<
    (),
    TransactionError,
> {
    if blen > 0 && !(write_outcome(d) is Ok) {
        write_outcome(d)
    } else if rlen > 0 {
        read_outcome(d, rlen)
    } else {
        Ok(())
    }
}

/// How many times `op` occurs in `s`.
pub open spec fn count_op(s: Seq<BusOp>, op: BusOp) -> nat
    decreases s.len(),
{
    if s.len() == 0 {
        0
    } else {
        count_op(s.drop_last(), op) + (if s.last() == op {
            1nat
        } else {
            0nat
        })
    }
}

/// embedded-hal style blocking I2C engine: wraps the non-blocking primitives
/// in cycle-counted busy-waits, retries START generation, and implements the
/// exact register-level write and read sequences.
pub struct BlockingI2c<SCL, SDA> {
    /// The underlying non-blocking engine.
    pub nb: I2c<SCL, SDA>,
    /// Cycle budget for the START busy-wait.
    pub start_timeout: u32,
    /// How many times START generation is attempted before giving up.
    pub start_retries: u8,
    /// Cycle budget for the address-phase busy-wait.
    pub addr_timeout: u32,
    /// Cycle budget for the data-phase busy-waits.
    pub data_timeout: u32,
}

/// Generates a blocking I2C instance from a universal I2C object, converting
/// each microsecond budget to a cycle count at the resolved system clock.
pub fn blocking_i2c<SCL, SDA>(
    i2c: I2c<SCL, SDA>,
    clocks: &Clocks,
    start_timeout_us: u32,
    start_retries: u8,
    addr_timeout_us: u32,
    data_timeout_us: u32,
) -> (r: BlockingI2c<SCL, SDA>)
    requires
        start_retries >= 1,
        start_timeout_us * (clocks.sysclk.0 as int / 1_000_000) <= u32::MAX,
        addr_timeout_us * (clocks.sysclk.0 as int / 1_000_000) <= u32::MAX,
        data_timeout_us * (clocks.sysclk.0 as int / 1_000_000) <= u32::MAX,
    ensures
        r.nb == i2c,
        r.start_retries == start_retries,
        r.start_timeout == start_timeout_us * (clocks.sysclk.0 as int / 1_000_000),
        r.addr_timeout == addr_timeout_us * (clocks.sysclk.0 as int / 1_000_000),
        r.data_timeout == data_timeout_us * (clocks.sysclk.0 as int / 1_000_000),
{
    let sysclk_mhz = clocks.sysclk.0 / 1_000_000;
    BlockingI2c {
        nb: i2c,
        start_timeout: start_timeout_us * sysclk_mhz,
        start_retries,
        addr_timeout: addr_timeout_us * sysclk_mhz,
        data_timeout: data_timeout_us * sysclk_mhz,
    }
}

impl<SCL, SDA> BlockingI2c<SCL, SDA> {
    /// The blocking engine's invariant: the wrapped engine is well formed and
    /// at least one START attempt is configured.
    pub open spec fn wf(self) -> bool {
        &&& self.nb.wf()
        &&& self.start_retries >= 1
    }

    /// The identity, the timeout budgets, and the retry count of `self` and
    /// `b` agree.
    pub open spec fn same_setup(self, b: BlockingI2c<SCL, SDA>) -> bool {
        &&& self.nb.same_identity(b.nb)
        &&& self.start_timeout == b.start_timeout
        &&& self.start_retries == b.start_retries
        &&& self.addr_timeout == b.addr_timeout
        &&& self.data_timeout == b.data_timeout
    }

    /// Configures the peripheral in master mode and wraps it with the given
    /// cycle budgets and retry count.
    pub fn new(
        i2c: I2cPeriph,
        scl_pin: SCL,
        sda_pin: SDA,
        mode: Mode,
        clocks: &Clocks,
        apb: &mut Apb1,
        start_timeout_us: u32,
        start_retries: u8,
        addr_timeout_us: u32,
        data_timeout_us: u32,
    ) -> (r: BlockingI2c<SCL, SDA>) where SCL: SclPin, SDA: SdaPin
        requires
            mode_ok(mode),
            start_retries >= 1,
            start_timeout_us * (clocks.sysclk.0 as int / 1_000_000) <= u32::MAX,
            addr_timeout_us * (clocks.sysclk.0 as int / 1_000_000) <= u32::MAX,
            data_timeout_us * (clocks.sysclk.0 as int / 1_000_000) <= u32::MAX,
        ensures
            r.wf(),
            r.nb.mode == mode,
            r.nb.pclk1 == clocks.pclk1.0,
            r.nb.scl_pin == scl_pin,
            r.nb.sda_pin == sda_pin,
            same_device(i2c, r.nb.i2c),
            same_error_flags(i2c, r.nb.i2c),
            same_seq_flags(i2c, r.nb.i2c),
            same_data_path(i2c, r.nb.i2c),
            r.nb.i2c.log@ == i2c.log@,
            r.nb.clock_programmed(),
            !r.nb.i2c.acken && !r.nb.i2c.poap,
            r.start_retries == start_retries,
            r.start_timeout == start_timeout_us * (clocks.sysclk.0 as int / 1_000_000),
            r.addr_timeout == addr_timeout_us * (clocks.sysclk.0 as int / 1_000_000),
            r.data_timeout == data_timeout_us * (clocks.sysclk.0 as int / 1_000_000),
    {
        blocking_i2c(
            I2c::new(i2c, scl_pin, sda_pin, mode, clocks, apb),
            clocks,
            start_timeout_us,
            start_retries,
            addr_timeout_us,
            data_timeout_us,
        )
    }

    /// Issues a START and busy-waits for its completion, retrying up to the
    /// configured count. Each failed attempt is followed by a full soft
    /// reset, which works around the documented erratum where a STOP issued
    /// just before a new transaction leaves the controller unable to
    /// generate a fresh START. When every attempt fails, the last observed
    /// error is returned.
    pub fn send_start_and_wait(&mut self) -> (r: Result<(), TransactionError>)
        requires
            old(self).wf(),
            old(self).nb.i2c.quiescent(),
        ensures
            final(self).wf(),
            final(self).same_setup(*old(self)),
            same_device(old(self).nb.i2c, final(self).nb.i2c),
            old(self).nb.i2c.dev.start_ok ==> {
                &&& r is Ok
                &&& final(self).nb.i2c.log@ == old(self).nb.i2c.log@.push(BusOp::Start)
                &&& final(self).nb.i2c.sbsend
                &&& !final(self).nb.i2c.error_pending()
                &&& !final(self).nb.i2c.addsend
                &&& final(self).nb.i2c.tbe == old(self).nb.i2c.tbe
                &&& final(self).nb.i2c.btc == old(self).nb.i2c.btc
                &&& final(self).nb.i2c.rbne == old(self).nb.i2c.rbne
                &&& same_ack_control(old(self).nb.i2c, final(self).nb.i2c)
                &&& same_clock_config(old(self).nb.i2c, final(self).nb.i2c)
                &&& same_data_path(old(self).nb.i2c, final(self).nb.i2c)
            },
            !old(self).nb.i2c.dev.start_ok ==> {
                &&& r == Err::<(), TransactionError>(TransactionError::Timeout)
                &&& final(self).nb.i2c.log@ == old(self).nb.i2c.log@ + failed_start_ops(
                    old(self).start_retries as nat,
                )
                &&& final(self).nb.i2c.quiescent()
                &&& !final(self).nb.i2c.tbe && !final(self).nb.i2c.btc && !final(self).nb.i2c.rbne
                &&& !final(self).nb.i2c.acken && !final(self).nb.i2c.poap
                &&& final(self).nb.i2c.rx_taken == 0
                &&& final(self).nb.clock_programmed()
            },
    {
        let ghost orig = *self;
        proof {
            assert(orig.nb.i2c.log@ + failed_start_ops(0) =~= orig.nb.i2c.log@);
        }
        let mut retries_left: u8 = self.start_retries;
        let mut last: Result<(), TransactionError> = Err(TransactionError::Timeout);
        while retries_left > 0
            invariant_except_break
                retries_left <= self.start_retries,
                orig.wf(),
                orig.nb.i2c.quiescent(),
                self.wf(),
                self.same_setup(orig),
                same_device(orig.nb.i2c, self.nb.i2c),
                orig.nb.i2c.dev.start_ok ==> {
                    &&& retries_left == self.start_retries
                    &&& same_error_flags(orig.nb.i2c, self.nb.i2c)
                    &&& same_seq_flags(orig.nb.i2c, self.nb.i2c)
                    &&& same_ack_control(orig.nb.i2c, self.nb.i2c)
                    &&& same_clock_config(orig.nb.i2c, self.nb.i2c)
                    &&& same_data_path(orig.nb.i2c, self.nb.i2c)
                    &&& self.nb.i2c.log@ == orig.nb.i2c.log@
                },
                !orig.nb.i2c.dev.start_ok ==> {
                    &&& last == Err::<(), TransactionError>(TransactionError::Timeout)
                    &&& self.nb.i2c.log@ == orig.nb.i2c.log@ + failed_start_ops(
                        (self.start_retries - retries_left) as nat,
                    )
                    &&& self.nb.i2c.quiescent()
                    &&& retries_left == self.start_retries ==> {
                        &&& same_seq_flags(orig.nb.i2c, self.nb.i2c)
                        &&& same_ack_control(orig.nb.i2c, self.nb.i2c)
                        &&& same_clock_config(orig.nb.i2c, self.nb.i2c)
                        &&& same_data_path(orig.nb.i2c, self.nb.i2c)
                    }
                    &&& retries_left < self.start_retries ==> {
                        &&& !self.nb.i2c.tbe && !self.nb.i2c.btc && !self.nb.i2c.rbne
                        &&& !self.nb.i2c.acken && !self.nb.i2c.poap
                        &&& self.nb.i2c.rx_taken == 0
                        &&& self.nb.clock_programmed()
                    }
                },
            ensures
                self.wf(),
                self.same_setup(orig),
                same_device(orig.nb.i2c, self.nb.i2c),
                orig.nb.i2c.dev.start_ok ==> {
                    &&& last is Ok
                    &&& self.nb.i2c.log@ == orig.nb.i2c.log@.push(BusOp::Start)
                    &&& self.nb.i2c.sbsend
                    &&& !self.nb.i2c.error_pending()
                    &&& !self.nb.i2c.addsend
                    &&& self.nb.i2c.tbe == orig.nb.i2c.tbe
                    &&& self.nb.i2c.btc == orig.nb.i2c.btc
                    &&& self.nb.i2c.rbne == orig.nb.i2c.rbne
                    &&& same_ack_control(orig.nb.i2c, self.nb.i2c)
                    &&& same_clock_config(orig.nb.i2c, self.nb.i2c)
                    &&& same_data_path(orig.nb.i2c, self.nb.i2c)
                },
                !orig.nb.i2c.dev.start_ok ==> {
                    &&& last == Err::<(), TransactionError>(TransactionError::Timeout)
                    &&& self.nb.i2c.log@ == orig.nb.i2c.log@ + failed_start_ops(
                        self.start_retries as nat,
                    )
                    &&& self.nb.i2c.quiescent()
                    &&& !self.nb.i2c.tbe && !self.nb.i2c.btc && !self.nb.i2c.rbne
                    &&& !self.nb.i2c.acken && !self.nb.i2c.poap
                    &&& self.nb.i2c.rx_taken == 0
                    &&& self.nb.clock_programmed()
                },
            decreases retries_left,
        {
            self.nb.send_start();
            let outcome = self.nb.i2c.wait_flag(StatusFlag::Sbsend, self.start_timeout);
            match outcome {
                WaitOutcome::Ready => {
                    last = Ok(());
                    break ;
                },
                WaitOutcome::TimedOut(_) => {
                    last = Err(TransactionError::Timeout);
                    self.nb.reset();
                },
                WaitOutcome::Fault(e) => {
                    last = Err(lift_error(e));
                    self.nb.reset();
                },
            }
            proof {
                let k = (self.start_retries - retries_left) as nat;
                assert(failed_start_ops(k + 1) == failed_start_ops(k) + seq![
                    BusOp::Start,
                    BusOp::Reset,
                ]);
                assert((orig.nb.i2c.log@ + failed_start_ops(k)).push(BusOp::Start).push(
                    BusOp::Reset,
                ) =~= orig.nb.i2c.log@ + failed_start_ops(k + 1));
            }
            retries_left = retries_left - 1;
        }
        last
    }

    /// Writes the address with the direction bit and busy-waits for the
    /// address-acknowledged flag. On an acknowledge error specifically, a
    /// STOP is issued before the error propagates, leaving the bus idle for
    /// the next transaction.
    pub fn send_addr_and_wait(&mut self, addr: u8, read: bool) -> (r: Result<
        (),
        TransactionError,
    >)
        requires
            old(self).wf(),
            addr < 128,
            !old(self).nb.i2c.error_pending(),
        ensures
            final(self).wf(),
            final(self).same_setup(*old(self)),
            same_device(old(self).nb.i2c, final(self).nb.i2c),
            same_clock_config(old(self).nb.i2c, final(self).nb.i2c),
            same_ack_control(old(self).nb.i2c, final(self).nb.i2c),
            !final(self).nb.i2c.error_pending(),
            !final(self).nb.i2c.sbsend,
            final(self).nb.i2c.rx_taken == 0,
            old(self).nb.i2c.dev.ack_addr ==> {
                &&& r is Ok
                &&& final(self).nb.i2c.log@ == old(self).nb.i2c.log@.push(
                    BusOp::Addr { addr, read },
                )
                &&& final(self).nb.i2c.addsend
                &&& read ==> {
                    &&& final(self).nb.i2c.rbne == (old(self).nb.i2c.dev.response@.len() >= 1)
                    &&& final(self).nb.i2c.btc == (old(self).nb.i2c.dev.response@.len() >= 2)
                    &&& !final(self).nb.i2c.tbe
                }
                &&& !read ==> {
                    &&& final(self).nb.i2c.tbe
                    &&& !final(self).nb.i2c.btc
                    &&& !final(self).nb.i2c.rbne
                }
            },
            !old(self).nb.i2c.dev.ack_addr ==> {
                &&& r == Err::<(), TransactionError>(TransactionError::Acknowledge)
                &&& final(self).nb.i2c.log@ == old(self).nb.i2c.log@ + seq![
                    BusOp::Addr { addr, read },
                    BusOp::Stop,
                ]
                &&& final(self).nb.i2c.quiescent()
                &&& !final(self).nb.i2c.tbe && !final(self).nb.i2c.btc && !final(self).nb.i2c.rbne
            },
    {
        self.nb.send_addr(addr, read);
        let outcome = self.nb.i2c.wait_flag(StatusFlag::Addsend, self.addr_timeout);
        match outcome {
            WaitOutcome::Ready => Ok(()),
            WaitOutcome::TimedOut(_) => Err(TransactionError::Timeout),
            WaitOutcome::Fault(e) => {
                let ret = lift_error(e);
                if matches!(ret, TransactionError::Acknowledge) {
                    self.nb.send_stop();
                }
                proof {
                    assert(old(self).nb.i2c.log@.push(BusOp::Addr { addr, read }).push(BusOp::Stop)
                        =~= old(self).nb.i2c.log@ + seq![
                        BusOp::Addr { addr, read },
                        BusOp::Stop,
                    ]);
                }
                Err(ret)
            },
        }
    }

    /// Clears stale status, writes the first byte immediately, then for each
    /// further byte busy-waits for the transmit buffer and writes it; after
    /// the last byte, busy-waits for byte-transfer-complete so the final
    /// byte is fully clocked out before any STOP.
    #[verifier::loop_isolation(false)]
    pub fn write_bytes_and_wait(&mut self, bytes: &[u8]) -> (r: Result<(), TransactionError>)
        requires
            old(self).wf(),
            bytes@.len() >= 1,
            !old(self).nb.i2c.error_pending(),
        ensures
            final(self).wf(),
            final(self).same_setup(*old(self)),
            same_device(old(self).nb.i2c, final(self).nb.i2c),
            same_clock_config(old(self).nb.i2c, final(self).nb.i2c),
            same_ack_control(old(self).nb.i2c, final(self).nb.i2c),
            !final(self).nb.i2c.error_pending(),
            !final(self).nb.i2c.addsend,
            final(self).nb.i2c.sbsend == old(self).nb.i2c.sbsend,
            final(self).nb.i2c.rbne == old(self).nb.i2c.rbne,
            final(self).nb.i2c.rx_taken == old(self).nb.i2c.rx_taken,
            old(self).nb.i2c.dev.ack_data ==> {
                &&& r is Ok
                &&& final(self).nb.i2c.log@ == old(self).nb.i2c.log@ + write_byte_ops(bytes@)
                &&& final(self).nb.i2c.tbe && final(self).nb.i2c.btc
            },
            !old(self).nb.i2c.dev.ack_data ==> {
                &&& r == Err::<(), TransactionError>(TransactionError::Acknowledge)
                &&& final(self).nb.i2c.log@ == old(self).nb.i2c.log@.push(
                    BusOp::WriteByte(bytes@[0]),
                )
                &&& !final(self).nb.i2c.tbe && !final(self).nb.i2c.btc
            },
    {
        self.nb.i2c.clear_status();
        self.nb.i2c.write_data(bytes[0]);
        proof {
            assert(bytes@.take(1).drop_last() =~= Seq::<u8>::empty());
            assert(bytes@.take(1).last() == bytes@[0]);
            assert(write_byte_ops(Seq::<u8>::empty()) =~= Seq::<BusOp>::empty());
            assert(write_byte_ops(bytes@.take(1)) =~= Seq::<BusOp>::empty().push(
                BusOp::WriteByte(bytes@[0]),
            ));
            assert(old(self).nb.i2c.log@ + write_byte_ops(bytes@.take(1)) =~= old(
                self,
            ).nb.i2c.log@.push(BusOp::WriteByte(bytes@[0])));
        }
        let mut i: usize = 1;
        while i < bytes.len()
            invariant
                1 <= i <= bytes@.len(),
                self.wf(),
                self.same_setup(*old(self)),
                same_device(old(self).nb.i2c, self.nb.i2c),
                same_clock_config(old(self).nb.i2c, self.nb.i2c),
                same_ack_control(old(self).nb.i2c, self.nb.i2c),
                !self.nb.i2c.berr && !self.nb.i2c.lostarb && !self.nb.i2c.ouerr,
                self.nb.i2c.aerr == !self.nb.i2c.dev.ack_data,
                !self.nb.i2c.addsend,
                self.nb.i2c.sbsend == old(self).nb.i2c.sbsend,
                self.nb.i2c.rbne == old(self).nb.i2c.rbne,
                self.nb.i2c.rx_taken == old(self).nb.i2c.rx_taken,
                self.nb.i2c.tbe == self.nb.i2c.dev.ack_data,
                self.nb.i2c.btc == self.nb.i2c.dev.ack_data,
                self.nb.i2c.dev.ack_data ==> self.nb.i2c.log@ == old(self).nb.i2c.log@
                    + write_byte_ops(bytes@.take(i as int)),
                !self.nb.i2c.dev.ack_data ==> self.nb.i2c.log@ == old(self).nb.i2c.log@.push(
                    BusOp::WriteByte(bytes@[0]),
                ),
            decreases bytes@.len() - i,
        {
            let outcome = self.nb.i2c.wait_flag(StatusFlag::Tbe, self.data_timeout);
            match outcome {
                WaitOutcome::Ready => {},
                WaitOutcome::TimedOut(_) => {
                    return Err(TransactionError::Timeout);
                },
                WaitOutcome::Fault(e) => {
                    return Err(lift_error(e));
                },
            }
            self.nb.i2c.write_data(bytes[i]);
            proof {
                let j = i as int;
                assert(bytes@.take(j + 1).drop_last() =~= bytes@.take(j));
                assert((old(self).nb.i2c.log@ + write_byte_ops(bytes@.take(j))).push(
                    BusOp::WriteByte(bytes@[j]),
                ) =~= old(self).nb.i2c.log@ + write_byte_ops(bytes@.take(j + 1)));
            }
            i = i + 1;
        }
        let outcome = self.nb.i2c.wait_flag(StatusFlag::Btc, self.data_timeout);
        proof {
            assert(bytes@.take(bytes@.len() as int) =~= bytes@);
        }
        match outcome {
            WaitOutcome::Ready => Ok(()),
            WaitOutcome::TimedOut(_) => Err(TransactionError::Timeout),
            WaitOutcome::Fault(e) => Err(lift_error(e)),
        }
    }

    /// Runs the START, address, and data phases of a write, but leaves the
    /// transaction open: no trailing STOP is issued on success. On an
    /// acknowledge error in the data phase, a STOP is issued before the error
    /// propagates.
    pub fn write_without_stop(&mut self, addr: u8, bytes: &[u8]) -> (r: Result<
        (),
        TransactionError,
    >)
        requires
            old(self).wf(),
            old(self).nb.i2c.quiescent(),
            addr < 128,
            bytes@.len() >= 1,
        ensures
            final(self).wf(),
            final(self).same_setup(*old(self)),
            same_device(old(self).nb.i2c, final(self).nb.i2c),
            r == write_outcome(old(self).nb.i2c.dev),
            final(self).nb.i2c.log@ == old(self).nb.i2c.log@ + write_nostop_ops(
                addr,
                bytes@,
                old(self).nb.i2c.dev,
                old(self).start_retries,
            ),
            final(self).nb.i2c.quiescent(),
            old(self).nb.i2c.dev.start_ok ==> {
                &&& same_ack_control(old(self).nb.i2c, final(self).nb.i2c)
                &&& same_clock_config(old(self).nb.i2c, final(self).nb.i2c)
            },
            !old(self).nb.i2c.dev.start_ok ==> {
                &&& !final(self).nb.i2c.acken && !final(self).nb.i2c.poap
                &&& final(self).nb.clock_programmed()
            },
            r is Ok ==> final(self).nb.i2c.tbe && final(self).nb.i2c.btc,
    {
        let started = self.send_start_and_wait();
        match started {
            Err(e) => {
                return Err(e);
            },
            Ok(()) => {},
        }
        let addressed = self.send_addr_and_wait(addr, false);
        match addressed {
            Err(e) => {
                proof {
                    assert(old(self).nb.i2c.log@.push(BusOp::Start) + seq![
                        BusOp::Addr { addr, read: false },
                        BusOp::Stop,
                    ] =~= old(self).nb.i2c.log@ + seq![
                        BusOp::Start,
                        BusOp::Addr { addr, read: false },
                        BusOp::Stop,
                    ]);
                }
                return Err(e);
            },
            Ok(()) => {},
        }
        let ret = self.write_bytes_and_wait(bytes);
        match ret {
            Err(e) => {
                if matches!(e, TransactionError::Acknowledge) {
                    self.nb.send_stop();
                }
                proof {
                    assert(old(self).nb.i2c.log@.push(BusOp::Start).push(
                        BusOp::Addr { addr, read: false },
                    ).push(BusOp::WriteByte(bytes@[0])).push(BusOp::Stop) =~= old(self).nb.i2c.log@
                        + seq![
                        BusOp::Start,
                        BusOp::Addr { addr, read: false },
                        BusOp::WriteByte(bytes@[0]),
                        BusOp::Stop,
                    ]);
                }
                Err(e)
            },
            Ok(()) => {
                proof {
                    assert(old(self).nb.i2c.log@.push(BusOp::Start).push(
                        BusOp::Addr { addr, read: false },
                    ) + write_byte_ops(bytes@) =~= old(self).nb.i2c.log@ + (seq![
                        BusOp::Start,
                        BusOp::Addr { addr, read: false },
                    ] + write_byte_ops(bytes@)));
                }
                Ok(())
            },
        }
    }

    /// Writes `bytes` to the device at `addr`: START with retry, address
    /// phase, the data bytes, then a STOP once the final byte has been fully
    /// clocked out. Succeeds exactly when a START completes and the device
    /// acknowledges its address and every byte.
    pub fn write(&mut self, addr: u8, bytes: &[u8]) -> (r: Result<(), TransactionError>)
        requires
            old(self).wf(),
            old(self).nb.i2c.quiescent(),
            addr < 128,
            bytes@.len() >= 1,
        ensures
            final(self).wf(),
            final(self).same_setup(*old(self)),
            same_device(old(self).nb.i2c, final(self).nb.i2c),
            r == write_outcome(old(self).nb.i2c.dev),
            final(self).nb.i2c.log@ == old(self).nb.i2c.log@ + write_ops(
                addr,
                bytes@,
                old(self).nb.i2c.dev,
                old(self).start_retries,
            ),
            final(self).nb.i2c.quiescent(),
            old(self).nb.i2c.dev.start_ok ==> {
                &&& same_ack_control(old(self).nb.i2c, final(self).nb.i2c)
                &&& same_clock_config(old(self).nb.i2c, final(self).nb.i2c)
            },
    {
        let opened = self.write_without_stop(addr, bytes);
        match opened {
            Err(e) => {
                return Err(e);
            },
            Ok(()) => {},
        }
        self.nb.send_stop();
        let _stop_done = self.nb.wait_for_stop();
        Ok(())
    }

    /// Reads `buffer.len()` bytes from the device at `addr`, choosing one of
    /// the three length-dependent sequences: acknowledge control takes effect
    /// one byte ahead of the data-register read, so one-byte, two-byte, and
    /// longer reads each need their own NAK/STOP placement. Succeeds exactly
    /// when a START completes, the device acknowledges its address, and it
    /// has at least `buffer.len()` bytes to give; the buffer then holds
    /// exactly those bytes, in order.
    #[verifier::loop_isolation(false)]
    #[verifier::rlimit(100)]
    pub fn read(&mut self, addr: u8, buffer: &mut Vec<u8>) -> (r: Result<(), TransactionError>)
        requires
            old(self).wf(),
            old(self).nb.i2c.quiescent(),
            addr < 128,
            old(buffer)@.len() >= 1,
        ensures
            final(self).wf(),
            final(self).same_setup(*old(self)),
            same_device(old(self).nb.i2c, final(self).nb.i2c),
            final(self).nb.i2c.quiescent(),
            final(buffer)@.len() == old(buffer)@.len(),
            r == read_outcome(old(self).nb.i2c.dev, old(buffer)@.len() as nat),
            r is Ok ==> {
                &&& final(buffer)@ == old(self).nb.i2c.dev.response@.subrange(
                    0,
                    old(buffer)@.len() as int,
                )
                &&& final(self).nb.i2c.log@ == old(self).nb.i2c.log@ + read_frame_ops(
                    addr,
                    old(buffer)@.len() as nat,
                )
            },
            !old(self).nb.i2c.dev.start_ok ==> {
                final(self).nb.i2c.log@ == old(self).nb.i2c.log@ + read_arm_ops(
                    old(buffer)@.len() as nat,
                ) + failed_start_ops(old(self).start_retries as nat)
            },
            old(self).nb.i2c.dev.start_ok && !old(self).nb.i2c.dev.ack_addr ==> {
                final(self).nb.i2c.log@ == old(self).nb.i2c.log@ + read_arm_ops(
                    old(buffer)@.len() as nat,
                ) + seq![BusOp::Start, BusOp::Addr { addr, read: true }, BusOp::Stop]
            },
            (old(self).nb.i2c.dev.start_ok && old(self).nb.i2c.dev.ack_addr
                && old(self).nb.i2c.dev.response@.len() < old(buffer)@.len()) ==> {
                &&& final(self).nb.i2c.log@.len() >= old(self).nb.i2c.log@.len()
                &&& final(self).nb.i2c.log@.subrange(0, old(self).nb.i2c.log@.len() as int) == old(
                    self,
                ).nb.i2c.log@
            },
    {
        let n = buffer.len();
        let ghost d = old(self).nb.i2c.dev;
        if n == 1 {
            proof {
                assert(old(self).nb.i2c.log@ + read_arm_ops(1) =~= old(self).nb.i2c.log@);
            }
            let started = self.send_start_and_wait();
            match started {
                Err(e) => {
                    return Err(e);
                },
                Ok(()) => {},
            }
            let addressed = self.send_addr_and_wait(addr, true);
            match addressed {
                Err(e) => {
                    proof {
                        assert(old(self).nb.i2c.log@.push(BusOp::Start) + seq![
                            BusOp::Addr { addr, read: true },
                            BusOp::Stop,
                        ] =~= old(self).nb.i2c.log@ + seq![
                            BusOp::Start,
                            BusOp::Addr { addr, read: true },
                            BusOp::Stop,
                        ]);
                    }
                    return Err(e);
                },
                Ok(()) => {},
            }
            self.nb.i2c.set_ack(false);
            self.nb.i2c.clear_status();
            self.nb.send_stop();
            let outcome = self.nb.i2c.wait_flag(StatusFlag::Rbne, self.data_timeout);
            match outcome {
                WaitOutcome::Ready => {},
                WaitOutcome::TimedOut(_) => {
                    proof {
                        assert((old(self).nb.i2c.log@.push(BusOp::Start).push(
                            BusOp::Addr { addr, read: true },
                        ).push(BusOp::AckSet(false)).push(BusOp::Stop)).subrange(
                            0,
                            old(self).nb.i2c.log@.len() as int,
                        ) =~= old(self).nb.i2c.log@);
                    }
                    return Err(TransactionError::Timeout);
                },
                WaitOutcome::Fault(e) => {
                    return Err(lift_error(e));
                },
            }
            let byte = self.nb.i2c.read_data();
            buffer.set(0, byte);
            let _stop_done = self.nb.wait_for_stop();
            self.nb.i2c.set_ack(true);
            proof {
                assert(final(self).nb.i2c.log@ =~= old(self).nb.i2c.log@ + read_frame_ops(
                    addr,
                    1,
                ));
                assert(final(buffer)@ =~= d.response@.subrange(0, 1));
            }
            Ok(())
        } else if n == 2 {
            self.nb.i2c.set_pos_next(true);
            self.nb.i2c.set_ack(true);
            let started = self.send_start_and_wait();
            match started {
                Err(e) => {
                    proof {
                        assert(old(self).nb.i2c.log@.push(BusOp::PosSet(true)).push(
                            BusOp::AckSet(true),
                        ) + failed_start_ops(old(self).start_retries as nat) =~= old(
                            self,
                        ).nb.i2c.log@ + read_arm_ops(2) + failed_start_ops(
                            old(self).start_retries as nat,
                        ));
                    }
                    return Err(e);
                },
                Ok(()) => {},
            }
            let addressed = self.send_addr_and_wait(addr, true);
            match addressed {
                Err(e) => {
                    proof {
                        assert(old(self).nb.i2c.log@.push(BusOp::PosSet(true)).push(
                            BusOp::AckSet(true),
                        ).push(BusOp::Start) + seq![
                            BusOp::Addr { addr, read: true },
                            BusOp::Stop,
                        ] =~= old(self).nb.i2c.log@ + read_arm_ops(2) + seq![
                            BusOp::Start,
                            BusOp::Addr { addr, read: true },
                            BusOp::Stop,
                        ]);
                    }
                    return Err(e);
                },
                Ok(()) => {},
            }
            self.nb.i2c.clear_status();
            self.nb.i2c.set_ack(false);
            let outcome = self.nb.i2c.wait_flag(StatusFlag::Btc, self.data_timeout);
            match outcome {
                WaitOutcome::Ready => {},
                WaitOutcome::TimedOut(_) => {
                    proof {
                        let l = old(self).nb.i2c.log@;
                        assert((l.push(BusOp::PosSet(true)).push(BusOp::AckSet(true)).push(
                            BusOp::Start,
                        ).push(BusOp::Addr { addr, read: true }).push(BusOp::AckSet(false))).subrange(
                            0,
                            l.len() as int,
                        ) =~= l);
                    }
                    return Err(TransactionError::Timeout);
                },
                WaitOutcome::Fault(e) => {
                    return Err(lift_error(e));
                },
            }
            self.nb.send_stop();
            let byte0 = self.nb.i2c.read_data();
            buffer.set(0, byte0);
            let byte1 = self.nb.i2c.read_data();
            buffer.set(1, byte1);
            let _stop_done = self.nb.wait_for_stop();
            self.nb.i2c.set_pos_next(false);
            self.nb.i2c.set_ack(false);
            self.nb.i2c.set_ack(true);
            proof {
                assert(final(self).nb.i2c.log@ =~= old(self).nb.i2c.log@ + read_frame_ops(
                    addr,
                    2,
                ));
                assert(final(buffer)@ =~= d.response@.subrange(0, 2));
            }
            Ok(())
        } else {
            proof {
                assert(old(self).nb.i2c.log@ + read_arm_ops(n as nat) =~= old(self).nb.i2c.log@);
            }
            let started = self.send_start_and_wait();
            match started {
                Err(e) => {
                    return Err(e);
                },
                Ok(()) => {},
            }
            let addressed = self.send_addr_and_wait(addr, true);
            match addressed {
                Err(e) => {
                    proof {
                        assert(old(self).nb.i2c.log@.push(BusOp::Start) + seq![
                            BusOp::Addr { addr, read: true },
                            BusOp::Stop,
                        ] =~= old(self).nb.i2c.log@ + seq![
                            BusOp::Start,
                            BusOp::Addr { addr, read: true },
                            BusOp::Stop,
                        ]);
                    }
                    return Err(e);
                },
                Ok(()) => {},
            }
            self.nb.i2c.set_ack(true);
            self.nb.i2c.clear_status();
            let ghost lead = old(self).nb.i2c.log@ + seq![
                BusOp::Start,
                BusOp::Addr { addr, read: true },
                BusOp::AckSet(true),
            ];
            proof {
                assert(self.nb.i2c.log@ =~= lead + Seq::new(0, |k: int| BusOp::ReadByte));
            }
            let mut i: usize = 0;
            while i < n - 3
                invariant
                    0 <= i <= n - 3,
                    n == buffer@.len(),
                    self.wf(),
                    self.same_setup(*old(self)),
                    same_device(old(self).nb.i2c, self.nb.i2c),
                    same_clock_config(old(self).nb.i2c, self.nb.i2c),
                    !self.nb.i2c.error_pending(),
                    !self.nb.i2c.sbsend,
                    !self.nb.i2c.addsend,
                    self.nb.i2c.acken,
                    self.nb.i2c.poap == old(self).nb.i2c.poap,
                    self.nb.i2c.rx_taken == i,
                    self.nb.i2c.rbne == (d.response@.len() - i >= 1),
                    self.nb.i2c.btc == (d.response@.len() - i >= 2),
                    self.nb.i2c.log@ == lead + Seq::new(i as nat, |k: int| BusOp::ReadByte),
                    forall|j: int| 0 <= j < i ==> buffer@[j] == d.response@[j],
                decreases n - 3 - i,
            {
                let outcome = self.nb.i2c.wait_flag(StatusFlag::Rbne, self.data_timeout);
                match outcome {
                    WaitOutcome::Ready => {},
                    WaitOutcome::TimedOut(_) => {
                        proof {
                            assert((lead + Seq::new(i as nat, |k: int| BusOp::ReadByte)).subrange(
                                0,
                                old(self).nb.i2c.log@.len() as int,
                            ) =~= old(self).nb.i2c.log@);
                        }
                        return Err(TransactionError::Timeout);
                    },
                    WaitOutcome::Fault(e) => {
                        return Err(lift_error(e));
                    },
                }
                let byte = self.nb.i2c.read_data();
                buffer.set(i, byte);
                proof {
                    assert((lead + Seq::new(i as nat, |k: int| BusOp::ReadByte)).push(
                        BusOp::ReadByte,
                    ) =~= lead + Seq::new((i + 1) as nat, |k: int| BusOp::ReadByte));
                }
                i = i + 1;
            }
            let outcome = self.nb.i2c.wait_flag(StatusFlag::Btc, self.data_timeout);
            match outcome {
                WaitOutcome::Ready => {},
                WaitOutcome::TimedOut(_) => {
                    proof {
                        assert((lead + Seq::new((n - 3) as nat, |k: int| BusOp::ReadByte)).subrange(
                            0,
                            old(self).nb.i2c.log@.len() as int,
                        ) =~= old(self).nb.i2c.log@);
                    }
                    return Err(TransactionError::Timeout);
                },
                WaitOutcome::Fault(e) => {
                    return Err(lift_error(e));
                },
            }
            self.nb.i2c.set_ack(false);
            let trailing0 = self.nb.i2c.read_data();
            buffer.set(n - 3, trailing0);
            self.nb.send_stop();
            let trailing1 = self.nb.i2c.read_data();
            buffer.set(n - 2, trailing1);
            let outcome = self.nb.i2c.wait_flag(StatusFlag::Rbne, self.data_timeout);
            match outcome {
                WaitOutcome::Ready => {},
                WaitOutcome::TimedOut(_) => {
                    proof {
                        assert((lead + Seq::new((n - 3) as nat, |k: int| BusOp::ReadByte)).push(
                            BusOp::AckSet(false),
                        ).push(BusOp::ReadByte).push(BusOp::Stop).push(BusOp::ReadByte).subrange(
                            0,
                            old(self).nb.i2c.log@.len() as int,
                        ) =~= old(self).nb.i2c.log@);
                    }
                    return Err(TransactionError::Timeout);
                },
                WaitOutcome::Fault(e) => {
                    return Err(lift_error(e));
                },
            }
            let trailing2 = self.nb.i2c.read_data();
            buffer.set(n - 1, trailing2);
            let _stop_done = self.nb.wait_for_stop();
            self.nb.i2c.set_ack(true);
            proof {
                assert(final(self).nb.i2c.log@ =~= old(self).nb.i2c.log@ + read_frame_ops(
                    addr,
                    n as nat,
                ));
                assert(final(buffer)@ =~= d.response@.subrange(0, n as int));
            }
            Ok(())
        }
    }

    /// Writes `bytes` (when non-empty) without a trailing STOP, then reads
    /// into `buffer` (when non-empty) with a repeated START; when there is
    /// nothing to read after a write, an explicit STOP closes the
    /// transaction, and when both are empty the call does nothing.
    pub fn write_read(&mut self, addr: u8, bytes: &[u8], buffer: &mut Vec<u8>) -> (r: Result<
        (),
        TransactionError,
    >)
        requires
            old(self).wf(),
            old(self).nb.i2c.quiescent(),
            addr < 128,
        ensures
            final(self).wf(),
            final(self).same_setup(*old(self)),
            same_device(old(self).nb.i2c, final(self).nb.i2c),
            final(self).nb.i2c.quiescent(),
            final(buffer)@.len() == old(buffer)@.len(),
            r == write_read_outcome(
                old(self).nb.i2c.dev,
                bytes@.len() as nat,
                old(buffer)@.len() as nat,
            ),
            bytes@.len() == 0 && old(buffer)@.len() == 0 ==> final(self).nb.i2c.log@ == old(
                self,
            ).nb.i2c.log@,
            bytes@.len() > 0 && !(write_outcome(old(self).nb.i2c.dev) is Ok) ==> {
                final(self).nb.i2c.log@ == old(self).nb.i2c.log@ + write_nostop_ops(
                    addr,
                    bytes@,
                    old(self).nb.i2c.dev,
                    old(self).start_retries,
                )
            },
            (bytes@.len() > 0 && write_outcome(old(self).nb.i2c.dev) is Ok && old(
                buffer,
            )@.len() == 0) ==> {
                final(self).nb.i2c.log@ == old(self).nb.i2c.log@ + write_ops(
                    addr,
                    bytes@,
                    old(self).nb.i2c.dev,
                    old(self).start_retries,
                )
            },
            r is Ok && old(buffer)@.len() > 0 ==> {
                &&& final(buffer)@ == old(self).nb.i2c.dev.response@.subrange(
                    0,
                    old(buffer)@.len() as int,
                )
                &&& final(self).nb.i2c.log@ == old(self).nb.i2c.log@ + (if bytes@.len() > 0 {
                    write_nostop_ops(
                        addr,
                        bytes@,
                        old(self).nb.i2c.dev,
                        old(self).start_retries,
                    )
                } else {
                    Seq::<BusOp>::empty()
                }) + read_frame_ops(addr, old(buffer)@.len() as nat)
            },
            (bytes@.len() == 0 && old(buffer)@.len() > 0 && !old(self).nb.i2c.dev.start_ok) ==> {
                final(self).nb.i2c.log@ == old(self).nb.i2c.log@ + read_arm_ops(
                    old(buffer)@.len() as nat,
                ) + failed_start_ops(old(self).start_retries as nat)
            },
            (bytes@.len() == 0 && old(buffer)@.len() > 0 && old(self).nb.i2c.dev.start_ok && !old(
                self,
            ).nb.i2c.dev.ack_addr) ==> {
                final(self).nb.i2c.log@ == old(self).nb.i2c.log@ + read_arm_ops(
                    old(buffer)@.len() as nat,
                ) + seq![BusOp::Start, BusOp::Addr { addr, read: true }, BusOp::Stop]
            },
            final(self).nb.i2c.log@.len() >= old(self).nb.i2c.log@.len()
                && final(self).nb.i2c.log@.subrange(0, old(self).nb.i2c.log@.len() as int) == old(
                self,
            ).nb.i2c.log@,
    {
        let ghost l0 = old(self).nb.i2c.log@;
        if bytes.len() > 0 {
            let opened = self.write_without_stop(addr, bytes);
            match opened {
                Err(e) => {
                    proof {
                        assert(self.nb.i2c.log@.subrange(0, l0.len() as int) =~= l0);
                    }
                    return Err(e);
                },
                Ok(()) => {},
            }
        }
        let ghost l1 = self.nb.i2c.log@;
        if buffer.len() > 0 {
            let got = self.read(addr, buffer);
            proof {
                let ghost d = old(self).nb.i2c.dev;
                let cur = self.nb.i2c.log@;
                assert forall|j: int| 0 <= j < l0.len() implies cur[j] == l0[j] by {
                    assert(l1[j] == l0[j]);
                    if d.start_ok && d.ack_addr && d.response@.len() < old(buffer)@.len() {
                        assert(cur.subrange(0, l1.len() as int)[j] == cur[j]);
                    }
                }
                assert(self.nb.i2c.log@.subrange(0, l0.len() as int) =~= l0);
                if bytes@.len() == 0 {
                    assert(l1 + read_frame_ops(addr, old(buffer)@.len() as nat) =~= l0
                        + Seq::<BusOp>::empty() + read_frame_ops(addr, old(buffer)@.len() as nat));
                    assert(l1 + read_arm_ops(old(buffer)@.len() as nat) + failed_start_ops(
                        old(self).start_retries as nat,
                    ) =~= l0 + read_arm_ops(old(buffer)@.len() as nat) + failed_start_ops(
                        old(self).start_retries as nat,
                    ));
                    assert(l1 + read_arm_ops(old(buffer)@.len() as nat) + seq![
                        BusOp::Start,
                        BusOp::Addr { addr, read: true },
                        BusOp::Stop,
                    ] =~= l0 + read_arm_ops(old(buffer)@.len() as nat) + seq![
                        BusOp::Start,
                        BusOp::Addr { addr, read: true },
                        BusOp::Stop,
                    ]);
                }
            }
            return got;
        } else if bytes.len() > 0 {
            self.nb.send_stop();
            let _stop_done = self.nb.wait_for_stop();
            proof {
                assert(self.nb.i2c.log@.subrange(0, l0.len() as int) =~= l0);
                assert(l1.push(BusOp::Stop) =~= l0 + write_ops(
                    addr,
                    bytes@,
                    old(self).nb.i2c.dev,
                    old(self).start_retries,
                ));
            }
        }
        proof {
            assert(self.nb.i2c.log@.subrange(0, l0.len() as int) =~= l0);
        }
        Ok(())
    }
}

/// Appending one action changes the count of `op` by one exactly when the
/// action is `op`.
pub proof fn lemma_count_op_push(s: Seq<BusOp>, x: BusOp, op: BusOp)
    ensures
        count_op(s.push(x), op) == count_op(s, op) + (if x == op {
            1nat
        } else {
            0nat
        }),
{
    assert(s.push(x).drop_last() =~= s);
    assert(s.push(x).last() == x);
}

/// The count of `op` distributes over concatenation.
pub proof fn lemma_count_op_concat(s1: Seq<BusOp>, s2: Seq<BusOp>, op: BusOp)
    ensures
        count_op(s1 + s2, op) == count_op(s1, op) + count_op(s2, op),
    decreases s2.len(),
{
    if s2.len() == 0 {
        assert(s1 + s2 =~= s1);
    } else {
        lemma_count_op_concat(s1, s2.drop_last(), op);
        assert((s1 + s2).drop_last() =~= s1 + s2.drop_last());
        assert((s1 + s2).last() == s2.last());
    }
}

/// A run of `k` data reads counts exactly `k` read actions.
pub proof fn lemma_count_reads_repeat(k: nat)
    ensures
        count_op(Seq::new(k, |i: int| BusOp::ReadByte), BusOp::ReadByte) == k,
    decreases k,
{
    if k > 0 {
        assert(Seq::new(k, |i: int| BusOp::ReadByte).drop_last() =~= Seq::new(
            (k - 1) as nat,
            |i: int| BusOp::ReadByte,
        ));
        assert(Seq::new(k, |i: int| BusOp::ReadByte).last() == BusOp::ReadByte);
        lemma_count_reads_repeat((k - 1) as nat);
    }
}

/// When every START attempt fails, the transaction trace holds exactly one
/// START request and exactly one soft reset per configured attempt: `n`
/// attempts perform exactly `n` soft resets.
pub proof fn lemma_failed_start_counts(n: nat)
    ensures
        failed_start_ops(n).len() == 2 * n,
        count_op(failed_start_ops(n), BusOp::Start) == n,
        count_op(failed_start_ops(n), BusOp::Reset) == n,
    decreases n,
{
    if n > 0 {
        lemma_failed_start_counts((n - 1) as nat);
        let prev = failed_start_ops((n - 1) as nat);
        lemma_count_op_concat(prev, seq![BusOp::Start, BusOp::Reset], BusOp::Start);
        lemma_count_op_concat(prev, seq![BusOp::Start, BusOp::Reset], BusOp::Reset);
        assert(seq![BusOp::Start, BusOp::Reset] =~= Seq::empty().push(BusOp::Start).push(
            BusOp::Reset,
        ));
        lemma_count_op_push(Seq::empty().push(BusOp::Start), BusOp::Reset, BusOp::Start);
        lemma_count_op_push(Seq::empty(), BusOp::Start, BusOp::Start);
        lemma_count_op_push(Seq::empty().push(BusOp::Start), BusOp::Reset, BusOp::Reset);
        lemma_count_op_push(Seq::empty(), BusOp::Start, BusOp::Reset);
    } else {
        assert(failed_start_ops(0) =~= Seq::<BusOp>::empty());
    }
}

/// An acknowledge error in the address phase of a write produces exactly one
/// STOP before the error propagates.
pub proof fn lemma_write_addr_nack_single_stop(addr: u8, bytes: Seq<u8>, d: SimDevice, retries: u8)
    requires
        d.start_ok,
        !d.ack_addr,
    ensures
        count_op(write_ops(addr, bytes, d, retries), BusOp::Stop) == 1,
        write_ops(addr, bytes, d, retries).last() == BusOp::Stop,
{
    let s = write_ops(addr, bytes, d, retries);
    assert(s =~= Seq::empty().push(BusOp::Start).push(BusOp::Addr { addr, read: false }).push(
        BusOp::Stop,
    ));
    lemma_count_op_push(
        Seq::empty().push(BusOp::Start).push(BusOp::Addr { addr, read: false }),
        BusOp::Stop,
        BusOp::Stop,
    );
    lemma_count_op_push(Seq::empty().push(BusOp::Start), BusOp::Addr { addr, read: false }, BusOp::Stop);
    lemma_count_op_push(Seq::empty(), BusOp::Start, BusOp::Stop);
}

/// An acknowledge error in the address phase of a read likewise produces
/// exactly one STOP before the error propagates, whatever the requested
/// length.
pub proof fn lemma_read_addr_nack_single_stop(addr: u8, n: nat)
    ensures
        count_op(
            read_arm_ops(n) + seq![BusOp::Start, BusOp::Addr { addr, read: true }, BusOp::Stop],
            BusOp::Stop,
        ) == 1,
{
    let tail = seq![BusOp::Start, BusOp::Addr { addr, read: true }, BusOp::Stop];
    lemma_count_op_concat(read_arm_ops(n), tail, BusOp::Stop);
    assert(tail =~= Seq::empty().push(BusOp::Start).push(BusOp::Addr { addr, read: true }).push(
        BusOp::Stop,
    ));
    lemma_count_op_push(
        Seq::empty().push(BusOp::Start).push(BusOp::Addr { addr, read: true }),
        BusOp::Stop,
        BusOp::Stop,
    );
    lemma_count_op_push(Seq::empty().push(BusOp::Start), BusOp::Addr { addr, read: true }, BusOp::Stop);
    lemma_count_op_push(Seq::empty(), BusOp::Start, BusOp::Stop);
    if n == 2 {
        assert(read_arm_ops(n) =~= Seq::empty().push(BusOp::PosSet(true)).push(BusOp::AckSet(true)));
        lemma_count_op_push(Seq::empty().push(BusOp::PosSet(true)), BusOp::AckSet(true), BusOp::Stop);
        lemma_count_op_push(Seq::empty(), BusOp::PosSet(true), BusOp::Stop);
    } else {
        assert(read_arm_ops(n) =~= Seq::<BusOp>::empty());
    }
}

/// The three read branches are distinct and correctly grouped: a read of
/// `n >= 3` bytes has a leading group of exactly `n - 3` plain data reads
/// after its three opening actions, a trailing group holding exactly the
/// three remaining data reads interleaved with the NAK and STOP actions, and
/// exactly `n` data reads in total.
pub proof fn lemma_read_frame_groups(addr: u8, n: nat)
    requires
        n >= 3,
    ensures
        read_frame_ops(addr, n).len() == n + 6,
        forall|i: int|
            3 <= i < n ==> read_frame_ops(addr, n)[i] == BusOp::ReadByte,
        read_frame_ops(addr, n).subrange(n as int, n as int + 6) =~= seq![
            BusOp::AckSet(false),
            BusOp::ReadByte,
            BusOp::Stop,
            BusOp::ReadByte,
            BusOp::ReadByte,
            BusOp::AckSet(true),
        ],
        count_op(read_frame_ops(addr, n), BusOp::ReadByte) == n,
{
    let head = seq![BusOp::Start, BusOp::Addr { addr, read: true }, BusOp::AckSet(true)];
    let mid = Seq::new((n - 3) as nat, |i: int| BusOp::ReadByte);
    let tail = seq![
        BusOp::AckSet(false),
        BusOp::ReadByte,
        BusOp::Stop,
        BusOp::ReadByte,
        BusOp::ReadByte,
        BusOp::AckSet(true),
    ];
    let s = read_frame_ops(addr, n);
    assert(s == head + mid + tail);
    assert(s.subrange(n as int, n as int + 6) =~= tail);
    lemma_count_op_concat(head + mid, tail, BusOp::ReadByte);
    lemma_count_op_concat(head, mid, BusOp::ReadByte);
    lemma_count_reads_repeat((n - 3) as nat);
    assert(head =~= Seq::empty().push(BusOp::Start).push(BusOp::Addr { addr, read: true }).push(
        BusOp::AckSet(true),
    ));
    lemma_count_op_push(
        Seq::empty().push(BusOp::Start).push(BusOp::Addr { addr, read: true }),
        BusOp::AckSet(true),
        BusOp::ReadByte,
    );
    lemma_count_op_push(
        Seq::empty().push(BusOp::Start),
        BusOp::Addr { addr, read: true },
        BusOp::ReadByte,
    );
    lemma_count_op_push(Seq::empty(), BusOp::Start, BusOp::ReadByte);
    assert(tail =~= Seq::empty().push(BusOp::AckSet(false)).push(BusOp::ReadByte).push(
        BusOp::Stop,
    ).push(BusOp::ReadByte).push(BusOp::ReadByte).push(BusOp::AckSet(true)));
    let t0 = Seq::empty().push(BusOp::AckSet(false));
    let t1 = t0.push(BusOp::ReadByte);
    let t2 = t1.push(BusOp::Stop);
    let t3 = t2.push(BusOp::ReadByte);
    let t4 = t3.push(BusOp::ReadByte);
    lemma_count_op_push(Seq::empty(), BusOp::AckSet(false), BusOp::ReadByte);
    lemma_count_op_push(t0, BusOp::ReadByte, BusOp::ReadByte);
    lemma_count_op_push(t1, BusOp::Stop, BusOp::ReadByte);
    lemma_count_op_push(t2, BusOp::ReadByte, BusOp::ReadByte);
    lemma_count_op_push(t3, BusOp::ReadByte, BusOp::ReadByte);
    lemma_count_op_push(t4, BusOp::AckSet(true), BusOp::ReadByte);
}

/// In standard mode the computed divisor is never below its spec-mandated
/// floor of four, for every frequency up to 100 kHz and every peripheral
/// clock; and the rise-time register holds the peripheral clock in MHz plus
/// one whenever that count fits the 8-bit rise-time field.
pub proof fn lemma_standard_clock_programming(frequency: Hertz, pclk1: u32)
    requires
        1 <= frequency.0 <= 100_000,
    ensures
        spec_clkc(Mode::Standard { frequency }, pclk1) >= 4,
        spec_pclk_mhz(pclk1) + 1 < 256 ==> spec_risetime(Mode::Standard { frequency }, pclk1)
            == spec_pclk_mhz(pclk1) + 1,
        !spec_duty_bit(Mode::Standard { frequency }),
        !spec_fast_bit(Mode::Standard { frequency }),
{
}

/// In fast mode the computed divisor is never below one, and the duty bit is
/// clear for the two-to-one ratio and set for the sixteen-to-nine ratio, for
/// every fast-mode frequency and peripheral clock.
pub proof fn lemma_fast_clock_programming(frequency: Hertz, duty_cycle: DutyCycle, pclk1: u32)
    requires
        1 <= frequency.0 <= 400_000,
    ensures
        spec_clkc(Mode::Fast { frequency, duty_cycle }, pclk1) >= 1,
        spec_duty_bit(Mode::Fast { frequency, duty_cycle }) == (duty_cycle
            == DutyCycle::Ratio16to9),
        spec_fast_bit(Mode::Fast { frequency, duty_cycle }),
{
}


} // verus!
