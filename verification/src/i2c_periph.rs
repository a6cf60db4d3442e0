//! Register-level model of the I2C bus controller.
//!
//! The controller's register block, the attached slave device, and the
//! free-running cycle counter are all represented as plain values, so that the
//! protocol engine in [`crate::i2c`] is an ordinary verified program over this
//! state. Every bus-level action is recorded in [`I2cPeriph::log`], which lets
//! the engine's contracts pin down the exact wire sequence each operation
//! produces.

use crate::i2c::Error;
use vstd::prelude::*;

verus! {

/// Behaviour of the attached slave device and of the bus environment.
///
/// The fields describe how the hardware reacts to each phase of a
/// transaction: whether a START condition completes, whether the device
/// acknowledges its address and the data bytes written to it, and which bytes
/// it returns when read.
pub struct SimDevice {
    /// A requested START condition completes. When false the start flag never
    /// appears, which models the documented erratum where a misplaced STOP
    /// leaves the controller unable to generate a fresh START.
    pub start_ok: bool,
    /// The device acknowledges its address.
    pub ack_addr: bool,
    /// The device acknowledges every data byte written to it.
    pub ack_data: bool,
    /// The bytes the device sends when read, in order.
    pub response: Vec<u8>,
}

impl SimDevice {
    /// A device that acknowledges everything and returns `response` on reads.
    pub fn responsive(response: Vec<u8>) -> (r: SimDevice)
        ensures
            r.start_ok,
            r.ack_addr,
            r.ack_data,
            r.response@ == response@,
    {
        SimDevice { start_ok: true, ack_addr: true, ack_data: true, response }
    }
}

/// One bus-level action taken by the controller, as recorded in the log.
#[derive(Clone, Copy, Debug, PartialEq, Eq, Structural)]
pub enum BusOp {
    /// A START condition was requested.
    Start,
    /// The 7-bit address and direction bit were clocked out.
    Addr { addr: u8, read: bool },
    /// A data byte was clocked out.
    WriteByte(u8),
    /// A data byte was taken from the data register.
    ReadByte,
    /// A STOP condition was requested.
    Stop,
    /// The acknowledge-enable control bit was set or cleared.
    AckSet(bool),
    /// The acknowledge-position control bit was set or cleared.
    PosSet(bool),
    /// The peripheral went through a software reset.
    Reset,
}

/// The status flags the engine can wait for, in register order.
#[derive(Clone, Copy, Debug, PartialEq, Eq, Structural)]
pub enum StatusFlag {
    /// START condition sent.
    Sbsend,
    /// Address sent and acknowledged.
    Addsend,
    /// Transmit buffer empty.
    Tbe,
    /// Byte transfer complete.
    Btc,
    /// Receive buffer not empty.
    Rbne,
}

/// Result of a single poll of the status decoder.
#[derive(Clone, Copy, Debug, PartialEq, Eq, Structural)]
pub enum PollOutcome {
    /// The requested flag is set; the operation may proceed.
    Ready,
    /// Neither an error nor the requested flag was observed; poll again.
    NotYet,
    /// An error condition was observed and its flag cleared.
    Failed(Error),
}

/// Terminal result of a bounded busy-wait.
#[derive(Clone, Copy, Debug, PartialEq, Eq, Structural)]
pub enum WaitOutcome {
    /// The requested flag was observed within the budget.
    Ready,
    /// The budget was exhausted; carries the elapsed cycle count that was
    /// observed when the wait gave up.
    TimedOut(u32),
    /// An error condition was observed and its flag cleared.
    Fault(Error),
}

/// Model of the I2C controller register block together with its environment:
/// the attached device and the free-running cycle counter used for timeouts.
pub struct I2cPeriph {
    /// Peripheral enable bit.
    pub i2cen: bool,
    /// Acknowledge-enable control bit.
    pub acken: bool,
    /// Acknowledge-position control bit (acknowledge applies to the next byte).
    pub poap: bool,
    /// Peripheral clock field, in MHz.
    pub i2cclk: u8,
    /// Rise-time register.
    pub risetime: u8,
    /// Clock divisor field.
    pub clkc: u16,
    /// Fast-mode duty-cycle bit.
    pub dtcy: bool,
    /// Fast-mode bit.
    pub fast: bool,
    /// Bus error flag.
    pub berr: bool,
    /// Arbitration-lost flag.
    pub lostarb: bool,
    /// Acknowledge-failure flag.
    pub aerr: bool,
    /// Overrun/underrun flag.
    pub ouerr: bool,
    /// START-sent flag.
    pub sbsend: bool,
    /// Address-sent flag.
    pub addsend: bool,
    /// Transmit-buffer-empty flag.
    pub tbe: bool,
    /// Byte-transfer-complete flag.
    pub btc: bool,
    /// Receive-buffer-not-empty flag.
    pub rbne: bool,
    /// Data register.
    pub data: u8,
    /// How many response bytes have been consumed since the last address
    /// phase.
    pub rx_taken: usize,
    /// The attached device.
    pub dev: SimDevice,
    /// Free-running cycle counter, advancing by one per sample.
    pub cycles: u32,
    /// The bus-level actions taken so far, oldest first.
    pub log: Vec<BusOp>,
}

/// Reduces a value in `[0, 2 * 2^32)` into the 32-bit counter range by
/// subtracting one wrap of the counter where needed.
pub open spec fn wrap32(v: int) -> int {
    if v >= 0x1_0000_0000 {
        v - 0x1_0000_0000
    } else {
        v
    }
}

/// The device fields of `a` and `b` agree.
pub open spec fn same_device(a: I2cPeriph, b: I2cPeriph) -> bool {
    &&& a.dev.start_ok == b.dev.start_ok
    &&& a.dev.ack_addr == b.dev.ack_addr
    &&& a.dev.ack_data == b.dev.ack_data
    &&& a.dev.response@ == b.dev.response@
}

/// The clock-programming registers and the enable bit of `a` and `b` agree.
pub open spec fn same_clock_config(a: I2cPeriph, b: I2cPeriph) -> bool {
    &&& a.i2cen == b.i2cen
    &&& a.i2cclk == b.i2cclk
    &&& a.risetime == b.risetime
    &&& a.clkc == b.clkc
    &&& a.dtcy == b.dtcy
    &&& a.fast == b.fast
}

/// The error flags of `a` and `b` agree.
pub open spec fn same_error_flags(a: I2cPeriph, b: I2cPeriph) -> bool {
    &&& a.berr == b.berr
    &&& a.lostarb == b.lostarb
    &&& a.aerr == b.aerr
    &&& a.ouerr == b.ouerr
}

/// The sequencing flags of `a` and `b` agree.
pub open spec fn same_seq_flags(a: I2cPeriph, b: I2cPeriph) -> bool {
    &&& a.sbsend == b.sbsend
    &&& a.addsend == b.addsend
    &&& a.tbe == b.tbe
    &&& a.btc == b.btc
    &&& a.rbne == b.rbne
}

/// The data path (data register and receive progress) of `a` and `b` agree.
pub open spec fn same_data_path(a: I2cPeriph, b: I2cPeriph) -> bool {
    &&& a.data == b.data
    &&& a.rx_taken == b.rx_taken
}

/// The acknowledge control bits of `a` and `b` agree.
pub open spec fn same_ack_control(a: I2cPeriph, b: I2cPeriph) -> bool {
    &&& a.acken == b.acken
    &&& a.poap == b.poap
}

impl I2cPeriph {
    /// An error flag is pending in the status register.
    pub open spec fn error_pending(self) -> bool {
        self.berr || self.lostarb || self.aerr || self.ouerr
    }

    /// The error the decoder reports next, in the fixed priority order:
    /// bus error, then arbitration loss, then acknowledge failure, then
    /// overrun.
    pub open spec fn pending_error(self) -> Error {
        if self.berr {
            Error::Bus
        } else if self.lostarb {
            Error::Arbitration
        } else if self.aerr {
            Error::Acknowledge
        } else {
            Error::Overrun
        }
    }

    /// The given status flag is set.
    pub open spec fn flag_set(self, flag: StatusFlag) -> bool {
        match flag {
            StatusFlag::Sbsend => self.sbsend,
            StatusFlag::Addsend => self.addsend,
            StatusFlag::Tbe => self.tbe,
            StatusFlag::Btc => self.btc,
            StatusFlag::Rbne => self.rbne,
        }
    }

    /// How many response bytes the device has not yet delivered.
    pub open spec fn rx_pending(self) -> int {
        self.dev.response@.len() - self.rx_taken
    }

    /// No error flag and no stale sequencing flag is pending: the state every
    /// public blocking operation starts from and returns to.
    pub open spec fn quiescent(self) -> bool {
        &&& !self.error_pending()
        &&& !self.sbsend
        &&& !self.addsend
    }

    /// A fresh controller attached to `dev`: all registers and flags at their
    /// reset values, an empty log, and the cycle counter at zero.
    pub fn new(dev: SimDevice) -> (r: I2cPeriph)
        ensures
            r.dev.start_ok == dev.start_ok,
            r.dev.ack_addr == dev.ack_addr,
            r.dev.ack_data == dev.ack_data,
            r.dev.response@ == dev.response@,
            r.log@ =~= Seq::<BusOp>::empty(),
            r.quiescent(),
            !r.i2cen && !r.acken && !r.poap,
            !r.tbe && !r.btc && !r.rbne,
            r.i2cclk == 0 && r.risetime == 0 && r.clkc == 0 && !r.dtcy && !r.fast,
            r.data == 0 && r.rx_taken == 0 && r.cycles == 0,
    {
        I2cPeriph {
            i2cen: false,
            acken: false,
            poap: false,
            i2cclk: 0,
            risetime: 0,
            clkc: 0,
            dtcy: false,
            fast: false,
            berr: false,
            lostarb: false,
            aerr: false,
            ouerr: false,
            sbsend: false,
            addsend: false,
            tbe: false,
            btc: false,
            rbne: false,
            data: 0,
            rx_taken: 0,
            dev,
            cycles: 0,
            log: Vec::new(),
        }
    }

    /// Samples the free-running cycle counter, which then advances by one.
    pub fn cycle_count(&mut self) -> (c: u32)
        ensures
            c == old(self).cycles,
            final(self).cycles == (if old(self).cycles == u32::MAX {
                0u32
            } else {
                (old(self).cycles + 1) as u32
            }),
            same_device(*old(self), *final(self)),
            same_clock_config(*old(self), *final(self)),
            same_error_flags(*old(self), *final(self)),
            same_seq_flags(*old(self), *final(self)),
            same_data_path(*old(self), *final(self)),
            same_ack_control(*old(self), *final(self)),
            final(self).log@ == old(self).log@,
    {
        let c = self.cycles;
        self.cycles = if c == u32::MAX { 0 } else { c + 1 };
        c
    }

    /// Polls the status decoder for `flag` under a cycle budget: the counter
    /// is sampled once before the first poll, and after every unready poll
    /// the elapsed cycles are checked against `budget`. The wait gives up
    /// only after observing an elapsed count of at least `budget` cycles.
    #[verifier::loop_isolation(false)]
    pub fn wait_flag(&mut self, flag: StatusFlag, budget: u32) -> (r: WaitOutcome)
        ensures
            same_device(*old(self), *final(self)),
            same_clock_config(*old(self), *final(self)),
            same_seq_flags(*old(self), *final(self)),
            same_data_path(*old(self), *final(self)),
            same_ack_control(*old(self), *final(self)),
            final(self).log@ == old(self).log@,
            old(self).error_pending() ==> {
                &&& r == WaitOutcome::Fault(old(self).pending_error())
                &&& final(self).berr == (old(self).berr && old(self).pending_error()
                    != Error::Bus)
                &&& final(self).lostarb == (old(self).lostarb && old(self).pending_error()
                    != Error::Arbitration)
                &&& final(self).aerr == (old(self).aerr && old(self).pending_error()
                    != Error::Acknowledge)
                &&& final(self).ouerr == (old(self).ouerr && old(self).pending_error()
                    != Error::Overrun)
            },
            !old(self).error_pending() ==> {
                &&& same_error_flags(*old(self), *final(self))
                &&& old(self).flag_set(flag) ==> r == WaitOutcome::Ready
                &&& !old(self).flag_set(flag) ==> (r matches WaitOutcome::TimedOut(elapsed)
                    && elapsed >= budget)
            },
    {
        let started = self.cycle_count();
        let ghost pre = *self;
        let ghost mut iters: int = 0;
        loop
            invariant
                same_device(pre, *self),
                same_clock_config(pre, *self),
                same_error_flags(pre, *self),
                same_seq_flags(pre, *self),
                same_data_path(pre, *self),
                same_ack_control(pre, *self),
                self.log@ == pre.log@,
                0 <= iters,
                budget >= 1 ==> iters <= budget - 1,
                budget == 0 ==> iters == 0,
                self.cycles as int == wrap32(started as int + iters + 1),
            decreases budget as int - iters,
        {
            let outcome = self.check_event(flag);
            match outcome {
                PollOutcome::Ready => {
                    return WaitOutcome::Ready;
                },
                PollOutcome::Failed(e) => {
                    return WaitOutcome::Fault(e);
                },
                PollOutcome::NotYet => {},
            }
            let now = self.cycle_count();
            let elapsed = now.wrapping_sub(started);
            proof {
                iters = iters + 1;
                assert(now as int == wrap32(started as int + iters));
                assert(elapsed as int == iters);
            }
            if elapsed >= budget {
                return WaitOutcome::TimedOut(elapsed);
            }
        }
    }

    /// The status decoder: examines the status register once, in the fixed
    /// priority order, clearing the error flag it reports. Reading is the only
    /// way an error flag is consumed, so the same event is never reported
    /// twice.
    pub fn check_event(&mut self, flag: StatusFlag) -> (r: PollOutcome)
        ensures
            same_device(*old(self), *final(self)),
            same_clock_config(*old(self), *final(self)),
            same_seq_flags(*old(self), *final(self)),
            same_data_path(*old(self), *final(self)),
            same_ack_control(*old(self), *final(self)),
            final(self).log@ == old(self).log@,
            final(self).cycles == old(self).cycles,
            old(self).error_pending() ==> {
                &&& r == PollOutcome::Failed(old(self).pending_error())
                &&& final(self).berr == (old(self).berr && old(self).pending_error()
                    != Error::Bus)
                &&& final(self).lostarb == (old(self).lostarb && old(self).pending_error()
                    != Error::Arbitration)
                &&& final(self).aerr == (old(self).aerr && old(self).pending_error()
                    != Error::Acknowledge)
                &&& final(self).ouerr == (old(self).ouerr && old(self).pending_error()
                    != Error::Overrun)
            },
            !old(self).error_pending() ==> {
                &&& same_error_flags(*old(self), *final(self))
                &&& r == (if old(self).flag_set(flag) {
                    PollOutcome::Ready
                } else {
                    PollOutcome::NotYet
                })
            },
    {
        if self.berr {
            self.berr = false;
            PollOutcome::Failed(Error::Bus)
        } else if self.lostarb {
            self.lostarb = false;
            PollOutcome::Failed(Error::Arbitration)
        } else if self.aerr {
            self.aerr = false;
            PollOutcome::Failed(Error::Acknowledge)
        } else if self.ouerr {
            self.ouerr = false;
            PollOutcome::Failed(Error::Overrun)
        } else {
            let set = match flag {
                StatusFlag::Sbsend => self.sbsend,
                StatusFlag::Addsend => self.addsend,
                StatusFlag::Tbe => self.tbe,
                StatusFlag::Btc => self.btc,
                StatusFlag::Rbne => self.rbne,
            };
            if set {
                PollOutcome::Ready
            } else {
                PollOutcome::NotYet
            }
        }
    }
    /// Requests a START condition. The start flag appears only when the bus
    /// environment lets the condition complete.
    pub fn set_start(&mut self)
        ensures
            same_device(*old(self), *final(self)),
            same_clock_config(*old(self), *final(self)),
            same_error_flags(*old(self), *final(self)),
            same_data_path(*old(self), *final(self)),
            same_ack_control(*old(self), *final(self)),
            final(self).cycles == old(self).cycles,
            final(self).log@ == old(self).log@.push(BusOp::Start),
            final(self).sbsend == old(self).dev.start_ok,
            final(self).addsend == old(self).addsend,
            final(self).tbe == old(self).tbe,
            final(self).btc == old(self).btc,
            final(self).rbne == old(self).rbne,
    {
        self.log.push(BusOp::Start);
        self.sbsend = self.dev.start_ok;
    }

    /// Clocks out the 7-bit address with the direction bit. Clears the
    /// start-sent flag, and raises either the address-sent flag or the
    /// acknowledge-failure flag according to the device. In read direction a
    /// fresh response transfer begins and the receive flags follow how many
    /// response bytes the device holds.
    #[verifier::rlimit(100)]
    pub fn write_addr_byte(&mut self, addr: u8, read: bool)
        requires
            addr < 128,
        ensures
            same_device(*old(self), *final(self)),
            same_clock_config(*old(self), *final(self)),
            same_ack_control(*old(self), *final(self)),
            final(self).cycles == old(self).cycles,
            final(self).log@ == old(self).log@.push(BusOp::Addr { addr, read }),
            final(self).berr == old(self).berr,
            final(self).lostarb == old(self).lostarb,
            final(self).ouerr == old(self).ouerr,
            final(self).aerr == (old(self).aerr || !old(self).dev.ack_addr),
            final(self).sbsend == false,
            final(self).addsend == old(self).dev.ack_addr,
            final(self).data == (addr * 2 + if read {
                1u8
            } else {
                0u8
            }),
            final(self).rx_taken == 0,
            read && old(self).dev.ack_addr ==> {
                &&& final(self).rbne == (old(self).dev.response@.len() >= 1)
                &&& final(self).btc == (old(self).dev.response@.len() >= 2)
                &&& final(self).tbe == false
            },
            !read && old(self).dev.ack_addr ==> {
                &&& final(self).tbe == true
                &&& final(self).btc == false
                &&& final(self).rbne == false
            },
            !old(self).dev.ack_addr ==> {
                &&& final(self).tbe == false
                &&& final(self).btc == false
                &&& final(self).rbne == false
            },
    {
        let ack = self.dev.ack_addr;
        let responding = read && ack;
        let have1 = responding && self.dev.response.len() >= 1;
        let have2 = responding && self.dev.response.len() >= 2;
        self.log.push(BusOp::Addr { addr, read });
        self.data = addr * 2 + if read { 1 } else { 0 };
        self.sbsend = false;
        self.rx_taken = 0;
        self.aerr = self.aerr || !ack;
        self.addsend = ack;
        self.tbe = !read && ack;
        self.btc = have2;
        self.rbne = have1;
    }

    /// Requests a STOP condition. In this model the condition completes
    /// before the stop bit is next observed, so no completion flag remains
    /// pending.
    pub fn set_stop(&mut self)
        ensures
            same_device(*old(self), *final(self)),
            same_clock_config(*old(self), *final(self)),
            same_error_flags(*old(self), *final(self)),
            same_seq_flags(*old(self), *final(self)),
            same_data_path(*old(self), *final(self)),
            same_ack_control(*old(self), *final(self)),
            final(self).cycles == old(self).cycles,
            final(self).log@ == old(self).log@.push(BusOp::Stop),
    {
        self.log.push(BusOp::Stop);
    }

    /// Sets or clears the acknowledge-enable control bit.
    pub fn set_ack(&mut self, on: bool)
        ensures
            same_device(*old(self), *final(self)),
            same_clock_config(*old(self), *final(self)),
            same_error_flags(*old(self), *final(self)),
            same_seq_flags(*old(self), *final(self)),
            same_data_path(*old(self), *final(self)),
            final(self).cycles == old(self).cycles,
            final(self).log@ == old(self).log@.push(BusOp::AckSet(on)),
            final(self).acken == on,
            final(self).poap == old(self).poap,
    {
        self.log.push(BusOp::AckSet(on));
        self.acken = on;
    }

    /// Sets or clears the acknowledge-position control bit (acknowledge
    /// control applies to the byte after next when set).
    pub fn set_pos_next(&mut self, on: bool)
        ensures
            same_device(*old(self), *final(self)),
            same_clock_config(*old(self), *final(self)),
            same_error_flags(*old(self), *final(self)),
            same_seq_flags(*old(self), *final(self)),
            same_data_path(*old(self), *final(self)),
            final(self).cycles == old(self).cycles,
            final(self).log@ == old(self).log@.push(BusOp::PosSet(on)),
            final(self).poap == on,
            final(self).acken == old(self).acken,
    {
        self.log.push(BusOp::PosSet(on));
        self.poap = on;
    }

    /// Reads the two status registers back to back, which consumes the
    /// address-sent flag (read-to-clear). Required before data transfer is
    /// meaningful.
    pub fn clear_status(&mut self)
        ensures
            same_device(*old(self), *final(self)),
            same_clock_config(*old(self), *final(self)),
            same_error_flags(*old(self), *final(self)),
            same_data_path(*old(self), *final(self)),
            same_ack_control(*old(self), *final(self)),
            final(self).cycles == old(self).cycles,
            final(self).log@ == old(self).log@,
            final(self).addsend == false,
            final(self).sbsend == old(self).sbsend,
            final(self).tbe == old(self).tbe,
            final(self).btc == old(self).btc,
            final(self).rbne == old(self).rbne,
    {
        self.addsend = false;
    }

    /// Writes one byte to the data register, clocking it out to the device.
    /// When the device acknowledges, the transmit flags rise; otherwise the
    /// acknowledge-failure flag is raised and the transmit flags stay down.
    #[verifier::rlimit(100)]
    pub fn write_data(&mut self, byte: u8)
        ensures
            same_device(*old(self), *final(self)),
            same_clock_config(*old(self), *final(self)),
            same_ack_control(*old(self), *final(self)),
            final(self).cycles == old(self).cycles,
            final(self).log@ == old(self).log@.push(BusOp::WriteByte(byte)),
            final(self).berr == old(self).berr,
            final(self).lostarb == old(self).lostarb,
            final(self).ouerr == old(self).ouerr,
            final(self).aerr == (old(self).aerr || !old(self).dev.ack_data),
            final(self).sbsend == old(self).sbsend,
            final(self).addsend == old(self).addsend,
            final(self).rbne == old(self).rbne,
            final(self).tbe == old(self).dev.ack_data,
            final(self).btc == old(self).dev.ack_data,
            final(self).data == byte,
            final(self).rx_taken == old(self).rx_taken,
    {
        self.log.push(BusOp::WriteByte(byte));
        self.data = byte;
        if self.dev.ack_data {
            self.tbe = true;
            self.btc = true;
        } else {
            self.aerr = true;
            self.tbe = false;
            self.btc = false;
        }
    }

    /// Takes one byte from the data register. The next pending response byte
    /// is delivered (or zero when the device has nothing left), and the
    /// receive flags follow the bytes still pending.
    #[verifier::rlimit(100)]
    pub fn read_data(&mut self) -> (b: u8)
        ensures
            same_device(*old(self), *final(self)),
            same_clock_config(*old(self), *final(self)),
            same_error_flags(*old(self), *final(self)),
            same_ack_control(*old(self), *final(self)),
            final(self).cycles == old(self).cycles,
            final(self).log@ == old(self).log@.push(BusOp::ReadByte),
            final(self).sbsend == old(self).sbsend,
            final(self).addsend == old(self).addsend,
            final(self).tbe == old(self).tbe,
            old(self).rx_taken < old(self).dev.response@.len() ==> {
                &&& b == old(self).dev.response@[old(self).rx_taken as int]
                &&& final(self).rx_taken == old(self).rx_taken + 1
            },
            old(self).rx_taken >= old(self).dev.response@.len() ==> {
                &&& b == 0
                &&& final(self).rx_taken == old(self).rx_taken
            },
            final(self).rbne == (final(self).rx_pending() >= 1),
            final(self).btc == (final(self).rx_pending() >= 2),
            final(self).data == b,
    {
        self.log.push(BusOp::ReadByte);
        let b: u8 = if self.rx_taken < self.dev.response.len() {
            let b = self.dev.response[self.rx_taken];
            self.rx_taken = self.rx_taken + 1;
            b
        } else {
            0
        };
        self.data = b;
        let len = self.dev.response.len();
        let taken = if self.rx_taken <= len {
            self.rx_taken
        } else {
            len
        };
        let pending: usize = len - taken;
        self.rbne = pending >= 1;
        self.btc = pending >= 2;
        b
    }
}

} // verus!
