//! Hardware timers: the system tick timer and the advanced timer peripheral.
//!
//! Both timers are modelled as plain register values. [`Timer`] owns a timer
//! at rest; [`CountDownTimer`] is the same timer running as a periodic
//! count-down, created by programming the prescaler and reload registers from
//! a requested frequency.

use crate::rcu::{Apb2, Clocks};
use crate::time::Hertz;
use vstd::prelude::*;

verus! {

/// Interrupt events a timer can signal.
pub enum Event {
    /// Timer timed out / count down ended.
    Update,
}

/// Errors from cancelling a count-down.
#[derive(Clone, Copy, Debug, PartialEq, Eq, Structural)]
pub enum Error {
    /// The timer was not running.
    Canceled,
}

/// Master-mode selection of the advanced timer: what the timer emits on its
/// trigger output.
#[derive(Clone, Copy, Debug, PartialEq, Eq, Structural)]
pub enum MasterMode {
    Reset,
    Enable,
    Update,
    ComparePulse,
    Compare0,
    Compare1,
    Compare2,
    Compare3,
}

/// Whether the debugger halts the timer when the core is stopped.
#[derive(Clone, Copy, Debug, PartialEq, Eq, Structural)]
pub enum DebugHold {
    /// The timer keeps counting while the core is halted.
    Continue,
    /// The timer is held while the core is halted.
    Pause,
}

/// Model of the debug-control register block.
pub struct DbgRegs {
    /// Hold behaviour of the advanced timer in debug mode.
    pub timer0_hold: DebugHold,
}

/// The per-channel registers of the advanced timer: enable and polarity bits
/// for the main and complementary outputs, the compare (duty) value, the idle
/// states, and whether the channel is configured for PWM output.
#[derive(Clone, Copy, Debug, PartialEq, Eq, Structural)]
pub struct ChannelRegs {
    /// Main output enable.
    pub en: bool,
    /// Complementary output enable.
    pub nen: bool,
    /// Main output polarity is inverted.
    pub p_inverted: bool,
    /// Complementary output polarity is inverted.
    pub np_inverted: bool,
    /// Compare value (duty).
    pub cv: u16,
    /// Idle state of the main output is high.
    pub iso_high: bool,
    /// Idle state of the complementary output is high.
    pub ison_high: bool,
    /// The channel compare output is configured for PWM mode.
    pub pwm_mode: bool,
}

/// The break/complementary-protection registers of the advanced timer.
#[derive(Clone, Copy, Debug, PartialEq, Eq, Structural)]
pub struct BreakRegs {
    /// Outputs are enabled automatically at the next update event.
    pub oaen: bool,
    /// Primary output enable.
    pub poen: bool,
    /// Break input enable.
    pub brken: bool,
    /// Break input polarity is inverted (active low).
    pub brkp_inverted: bool,
    /// Run-mode off-state selection.
    pub ros: bool,
    /// Idle-mode off-state selection.
    pub ios: bool,
    /// Register write protection.
    pub prot: bool,
    /// Dead-time configuration field.
    pub dtcfg: u8,
}

/// Model of the advanced timer peripheral register block.
#[derive(Clone, Copy, Debug, PartialEq, Eq, Structural)]
pub struct TimerBlock {
    /// Counter enable.
    pub cen: bool,
    /// Update-request source limited to counter events only.
    pub ups_counter_only: bool,
    /// Update interrupt enable.
    pub upie: bool,
    /// Update interrupt flag.
    pub upif: bool,
    /// Prescaler register.
    pub psc: u16,
    /// Counter auto-reload register.
    pub car: u16,
    /// Current counter value.
    pub cnt: u16,
    /// Master-mode selection.
    pub mmc: MasterMode,
    /// Channel 0 registers.
    pub ch0: ChannelRegs,
    /// Channel 1 registers.
    pub ch1: ChannelRegs,
    /// Channel 2 registers.
    pub ch2: ChannelRegs,
    /// Channel 3 registers.
    pub ch3: ChannelRegs,
    /// Break and protection registers.
    pub cchp: BreakRegs,
}

/// The reset value of a channel's registers.
pub open spec fn spec_reset_channel() -> ChannelRegs {
    ChannelRegs {
        en: false,
        nen: false,
        p_inverted: false,
        np_inverted: false,
        cv: 0,
        iso_high: false,
        ison_high: false,
        pwm_mode: false,
    }
}

/// The reset value of the advanced timer register block.
pub open spec fn spec_reset_timer_block() -> TimerBlock {
    TimerBlock {
        cen: false,
        ups_counter_only: false,
        upie: false,
        upif: false,
        psc: 0,
        car: 0,
        cnt: 0,
        mmc: MasterMode::Reset,
        ch0: spec_reset_channel(),
        ch1: spec_reset_channel(),
        ch2: spec_reset_channel(),
        ch3: spec_reset_channel(),
        cchp: BreakRegs {
            oaen: false,
            poen: false,
            brken: false,
            brkp_inverted: false,
            ros: false,
            ios: false,
            prot: false,
            dtcfg: 0,
        },
    }
}

impl TimerBlock {
    /// An advanced timer block in its reset state.
    pub fn new() -> (r: TimerBlock)
        ensures
            r == spec_reset_timer_block(),
    {
        TimerBlock {
            cen: false,
            ups_counter_only: false,
            upie: false,
            upif: false,
            psc: 0,
            car: 0,
            cnt: 0,
            mmc: MasterMode::Reset,
            ch0: ChannelRegs {
                en: false,
                nen: false,
                p_inverted: false,
                np_inverted: false,
                cv: 0,
                iso_high: false,
                ison_high: false,
                pwm_mode: false,
            },
            ch1: ChannelRegs {
                en: false,
                nen: false,
                p_inverted: false,
                np_inverted: false,
                cv: 0,
                iso_high: false,
                ison_high: false,
                pwm_mode: false,
            },
            ch2: ChannelRegs {
                en: false,
                nen: false,
                p_inverted: false,
                np_inverted: false,
                cv: 0,
                iso_high: false,
                ison_high: false,
                pwm_mode: false,
            },
            ch3: ChannelRegs {
                en: false,
                nen: false,
                p_inverted: false,
                np_inverted: false,
                cv: 0,
                iso_high: false,
                ison_high: false,
                pwm_mode: false,
            },
            cchp: BreakRegs {
                oaen: false,
                poen: false,
                brken: false,
                brkp_inverted: false,
                ros: false,
                ios: false,
                prot: false,
                dtcfg: 0,
            },
        }
    }
}

/// Model of the system tick timer.
#[derive(Clone, Copy, Debug, PartialEq, Eq, Structural)]
pub struct Syst {
    /// Reload value register (24 bits).
    pub reload: u32,
    /// Current counter value.
    pub current: u32,
    /// Counter enable.
    pub enabled: bool,
    /// Exception (interrupt) enable.
    pub interrupt: bool,
    /// The counter has wrapped since the flag was last read.
    pub wrapped: bool,
    /// The counter runs from the core clock rather than the divided source.
    pub core_source: bool,
}

/// A timer peripheral at rest, together with its resolved input clock.
pub struct Timer<TIMER> {
    /// The owned timer registers.
    pub timer: TIMER,
    /// The timer's input clock frequency.
    pub clock: Hertz,
}

/// A timer running as a periodic count-down.
pub struct CountDownTimer<TIMER> {
    /// The owned timer registers.
    pub timer: TIMER,
    /// The timer's input clock frequency.
    pub clock: Hertz,
}

/// The inputs on which the prescaler/reload computation is defined: at least
/// one timer tick per period, and a reload value that fits its 16-bit
/// register.
pub open spec fn prescaler_reload_fits(freq: Hertz, clock: Hertz) -> bool {
    let ticks = clock.0 as int / freq.0 as int;
    &&& freq.0 >= 1
    &&& ticks >= 1
    &&& ticks / ((ticks - 1) / 65536 + 1) <= 65535
}

/// The prescaler value for a target update frequency: the tick count divided
/// into 16-bit-sized slices.
pub open spec fn spec_prescaler(freq: Hertz, clock: Hertz) -> int {
    (clock.0 as int / freq.0 as int - 1) / 65536
}

/// The auto-reload value for a target update frequency.
pub open spec fn spec_reload(freq: Hertz, clock: Hertz) -> int {
    let ticks = clock.0 as int / freq.0 as int;
    ticks / (spec_prescaler(freq, clock) + 1)
}

/// Computes the prescaler and auto-reload register values that make the
/// timer update at `freq` when clocked at `clock`.
pub fn compute_prescaler_reload(freq: Hertz, clock: Hertz) -> (r: (u16, u16))
    requires
        prescaler_reload_fits(freq, clock),
    ensures
        r.0 == spec_prescaler(freq, clock),
        r.1 == spec_reload(freq, clock),
{
    let ticks: u32 = clock.0 / freq.0;
    let psc32: u32 = (ticks - 1) / 65536;
    assert(psc32 <= 65535) by (nonlinear_arith)
        requires
            psc32 == (ticks - 1) as int / 65536 && ticks >= 1 && ticks <= u32::MAX,
    ;
    let psc: u16 = psc32 as u16;
    let car32: u32 = ticks / (psc32 + 1);
    let car: u16 = car32 as u16;
    (psc, car)
}

impl Timer<Syst> {
    /// Takes ownership of the system tick timer, switching it to the core
    /// clock source.
    pub fn syst(syst: Syst, clocks: &Clocks) -> (r: Timer<Syst>)
        ensures
            r.clock == clocks.hclk,
            r.timer == (Syst { core_source: true, ..syst }),
    {
        let mut syst = syst;
        syst.core_source = true;
        Timer { timer: syst, clock: clocks.hclk() }
    }

    /// Configures the system tick timer as a periodic count-down timer at the
    /// given frequency.
    pub fn start_count_down(self, timeout: Hertz) -> (r: CountDownTimer<Syst>)
        requires
            timeout.0 >= 1,
            self.clock.0 as int / timeout.0 as int >= 1,
            self.clock.0 as int / timeout.0 as int - 1 < 0x100_0000,
        ensures
            r.clock == self.clock,
            r.timer.reload == self.clock.0 as int / timeout.0 as int - 1,
            r.timer.current == 0,
            r.timer.enabled,
            r.timer.interrupt == self.timer.interrupt,
            r.timer.core_source == self.timer.core_source,
    {
        let Timer { timer, clock } = self;
        let mut timer = CountDownTimer { timer, clock };
        timer.start(timeout);
        timer
    }

    /// Releases the system tick timer.
    pub fn release(self) -> (r: Syst)
        ensures
            r == self.timer,
    {
        self.timer
    }
}

impl CountDownTimer<Syst> {
    /// Starts listening for an event.
    pub fn listen(&mut self, event: Event)
        ensures
            final(self).timer == (Syst { interrupt: true, ..old(self).timer }),
            final(self).clock == old(self).clock,
    {
        match event {
            Event::Update => self.timer.interrupt = true,
        }
    }

    /// Stops listening for an event.
    pub fn unlisten(&mut self, event: Event)
        ensures
            final(self).timer == (Syst { interrupt: false, ..old(self).timer }),
            final(self).clock == old(self).clock,
    {
        match event {
            Event::Update => self.timer.interrupt = false,
        }
    }

    /// Resets the counter. The interrupt request fires only when the counter
    /// goes from one to zero, so clearing it does not raise an interrupt.
    pub fn reset(&mut self)
        ensures
            final(self).timer == (Syst { current: 0, ..old(self).timer }),
            final(self).clock == old(self).clock,
    {
        self.timer.current = 0;
    }

    /// Returns the number of microseconds since the last update event. Not a
    /// reliable time base: an update event is easy to lose.
    pub fn micros_since(&self) -> (r: u32)
        requires
            self.timer.current <= self.timer.reload,
            self.clock.0 >= 1,
            1_000_000 * (self.timer.reload - self.timer.current) / self.clock.0 as int
                <= u32::MAX,
        ensures
            r == 1_000_000 * (self.timer.reload - self.timer.current) / self.clock.0 as int,
    {
        let reload_value = self.timer.reload;
        let timer_clock: u64 = self.clock.0 as u64;
        let ticks: u64 = (reload_value - self.timer.current) as u64;
        ((1_000_000u64 * ticks) / timer_clock) as u32
    }

    /// Programs the reload value for the given frequency and starts the
    /// counter.
    pub fn start(&mut self, timeout: Hertz)
        requires
            timeout.0 >= 1,
            old(self).clock.0 as int / timeout.0 as int >= 1,
            old(self).clock.0 as int / timeout.0 as int - 1 < 0x100_0000,
        ensures
            final(self).clock == old(self).clock,
            final(self).timer.reload == old(self).clock.0 as int / timeout.0 as int - 1,
            final(self).timer.current == 0,
            final(self).timer.enabled,
            final(self).timer.interrupt == old(self).timer.interrupt,
            final(self).timer.core_source == old(self).timer.core_source,
            final(self).timer.wrapped == old(self).timer.wrapped,
    {
        let rvr = self.clock.0 / timeout.0 - 1;
        self.timer.reload = rvr;
        self.timer.current = 0;
        self.timer.enabled = true;
    }

    /// Checks once whether the counter has wrapped since the last check;
    /// reading the flag clears it.
    pub fn wait(&mut self) -> (r: bool)
        ensures
            r == old(self).timer.wrapped,
            final(self).timer == (Syst { wrapped: false, ..old(self).timer }),
            final(self).clock == old(self).clock,
    {
        let wrapped = self.timer.wrapped;
        self.timer.wrapped = false;
        wrapped
    }

    /// Pauses the counter; fails when it was not running.
    pub fn cancel(&mut self) -> (r: Result<(), Error>)
        ensures
            old(self).timer.enabled ==> r is Ok && final(self).timer == (Syst {
                enabled: false,
                ..old(self).timer
            }),
            !old(self).timer.enabled ==> r == Err::<(), Error>(Error::Canceled) && *final(self)
                == *old(self),
            final(self).clock == old(self).clock,
    {
        if !self.timer.enabled {
            return Err(Error::Canceled);
        }
        self.timer.enabled = false;
        Ok(())
    }

    /// Stops the timer, returning it to rest.
    pub fn stop(self) -> (r: Timer<Syst>)
        ensures
            r.timer == (Syst { enabled: false, ..self.timer }),
            r.clock == self.clock,
    {
        let mut timer = self.timer;
        timer.enabled = false;
        Timer { timer, clock: self.clock }
    }

    /// Releases the system tick timer.
    pub fn release(self) -> (r: Syst)
        ensures
            r == (Syst { enabled: false, ..self.timer }),
    {
        self.stop().release()
    }
}

impl Timer<TimerBlock> {
    /// Takes ownership of the advanced timer: enables and resets it on its
    /// bus, recording the resolved timer clock.
    pub fn timer0(timer: TimerBlock, clocks: &Clocks, apb: &mut Apb2) -> (r: Timer<TimerBlock>)
        ensures
            r.timer == spec_reset_timer_block(),
            r.clock == clocks.pclk2,
            final(apb).enables == (if old(apb).enables == u32::MAX {
                old(apb).enables
            } else {
                (old(apb).enables + 1) as u32
            }),
    {
        apb.enables = if apb.enables == u32::MAX {
            apb.enables
        } else {
            apb.enables + 1
        };
        // The bus reset discards whatever register state the block held.
        let _previous_state = timer;
        Timer { timer: TimerBlock::new(), clock: clocks.pclk2() }
    }

    /// Starts the timer in count-down mode at the given frequency.
    pub fn start_count_down(self, timeout: Hertz) -> (r: CountDownTimer<TimerBlock>)
        requires
            prescaler_reload_fits(timeout, self.clock),
        ensures
            r.clock == self.clock,
            r.timer.psc == spec_prescaler(timeout, self.clock),
            r.timer.car == spec_reload(timeout, self.clock),
            r.timer.cnt == 0,
            r.timer.cen,
            r.timer.upif == self.timer.upif,
            r.timer.upie == self.timer.upie,
            r.timer.mmc == self.timer.mmc,
            r.timer.ch0 == self.timer.ch0,
            r.timer.ch1 == self.timer.ch1,
            r.timer.ch2 == self.timer.ch2,
            r.timer.ch3 == self.timer.ch3,
            r.timer.cchp == self.timer.cchp,
    {
        let Timer { timer, clock } = self;
        let mut timer = CountDownTimer { timer, clock };
        timer.start(timeout);
        timer
    }

    /// Starts the timer in count-down mode and additionally configures its
    /// master mode.
    pub fn start_master(self, timeout: Hertz, mode: MasterMode) -> (r: CountDownTimer<TimerBlock>)
        requires
            prescaler_reload_fits(timeout, self.clock),
        ensures
            r.clock == self.clock,
            r.timer.psc == spec_prescaler(timeout, self.clock),
            r.timer.car == spec_reload(timeout, self.clock),
            r.timer.cnt == 0,
            r.timer.cen,
            r.timer.mmc == mode,
            r.timer.upif == self.timer.upif,
            r.timer.upie == self.timer.upie,
            r.timer.ch0 == self.timer.ch0,
            r.timer.ch1 == self.timer.ch1,
            r.timer.ch2 == self.timer.ch2,
            r.timer.ch3 == self.timer.ch3,
            r.timer.cchp == self.timer.cchp,
    {
        let Timer { timer, clock } = self;
        let mut timer = CountDownTimer { timer, clock };
        timer.timer.mmc = mode;
        timer.start(timeout);
        timer
    }

    /// Resets the timer peripheral through its bus.
    pub fn clocking_reset(&mut self, _apb: &mut Apb2)
        ensures
            final(self).timer == spec_reset_timer_block(),
            final(self).clock == old(self).clock,
    {
        self.timer = TimerBlock::new();
    }

    /// Selects whether the debugger holds the timer while the core is
    /// stopped. Stopping the timer in debug mode can disturb signal
    /// sampling.
    pub fn stop_in_debug(&mut self, dbg: &mut DbgRegs, state: DebugHold)
        ensures
            final(dbg).timer0_hold == state,
            *final(self) == *old(self),
    {
        dbg.timer0_hold = state;
    }

    /// Releases the timer peripheral.
    pub fn release(self) -> (r: TimerBlock)
        ensures
            r == self.timer,
    {
        self.timer
    }
}

impl CountDownTimer<TimerBlock> {
    /// Starts listening for an event.
    pub fn listen(&mut self, event: Event)
        ensures
            final(self).timer == (TimerBlock { upie: true, ..old(self).timer }),
            final(self).clock == old(self).clock,
    {
        match event {
            Event::Update => self.timer.upie = true,
        }
    }

    /// Stops listening for an event.
    pub fn unlisten(&mut self, event: Event)
        ensures
            final(self).timer == (TimerBlock { upie: false, ..old(self).timer }),
            final(self).clock == old(self).clock,
    {
        match event {
            Event::Update => self.timer.upie = false,
        }
    }

    /// Stops the timer, returning it to rest.
    pub fn stop(self) -> (r: Timer<TimerBlock>)
        ensures
            r.timer == (TimerBlock { cen: false, ..self.timer }),
            r.clock == self.clock,
    {
        let mut timer = self.timer;
        timer.cen = false;
        Timer { timer, clock: self.clock }
    }

    /// Clears the update interrupt flag.
    pub fn clear_update_interrupt_flag(&mut self)
        ensures
            final(self).timer == (TimerBlock { upif: false, ..old(self).timer }),
            final(self).clock == old(self).clock,
    {
        self.timer.upif = false;
    }

    /// Releases the timer peripheral.
    pub fn release(self) -> (r: TimerBlock)
        ensures
            r == (TimerBlock { cen: false, ..self.timer }),
    {
        self.stop().release()
    }

    /// Returns the number of microseconds since the last update event. Not a
    /// reliable time base: an update event is easy to lose.
    pub fn micros_since(&self) -> (r: u32)
        requires
            self.clock.0 as int / (self.timer.psc + 1) >= 1,
            1_000_000 * (self.timer.cnt as int) / (self.clock.0 as int / (self.timer.psc + 1))
                <= u32::MAX,
        ensures
            r == 1_000_000 * (self.timer.cnt as int) / (self.clock.0 as int / (
            self.timer.psc + 1)),
    {
        let timer_clock = self.clock.0;
        let psc: u32 = self.timer.psc as u32;
        let freq_divider: u64 = (timer_clock / (psc + 1)) as u64;
        let cnt: u64 = self.timer.cnt as u64;
        ((1_000_000u64 * cnt) / freq_divider) as u32
    }

    /// Resets the counter by forcing an update event, with the interrupt
    /// request suppressed while doing so.
    pub fn reset(&mut self)
        ensures
            final(self).timer == (TimerBlock {
                cnt: 0,
                ups_counter_only: false,
                ..old(self).timer
            }),
            final(self).clock == old(self).clock,
    {
        self.timer.ups_counter_only = true;
        self.timer.cnt = 0;
        self.timer.ups_counter_only = false;
    }

    /// Pauses the counter, programs the prescaler and reload values for the
    /// given frequency, loads them with a forced update event, and starts
    /// counting.
    pub fn start(&mut self, timeout: Hertz)
        requires
            prescaler_reload_fits(timeout, old(self).clock),
        ensures
            final(self).clock == old(self).clock,
            final(self).timer.psc == spec_prescaler(timeout, old(self).clock),
            final(self).timer.car == spec_reload(timeout, old(self).clock),
            final(self).timer.cnt == 0,
            final(self).timer.cen,
            final(self).timer.upif == old(self).timer.upif,
            final(self).timer.upie == old(self).timer.upie,
            final(self).timer.mmc == old(self).timer.mmc,
            final(self).timer.ch0 == old(self).timer.ch0,
            final(self).timer.ch1 == old(self).timer.ch1,
            final(self).timer.ch2 == old(self).timer.ch2,
            final(self).timer.ch3 == old(self).timer.ch3,
            final(self).timer.cchp == old(self).timer.cchp,
    {
        self.timer.cen = false;
        let (psc, car) = compute_prescaler_reload(timeout, self.clock);
        self.timer.psc = psc;
        self.timer.car = car;
        self.reset();
        self.timer.cen = true;
    }

    /// Checks once whether an update event is pending; when it is, the flag
    /// is cleared and the wait is over.
    pub fn wait(&mut self) -> (r: bool)
        ensures
            r == old(self).timer.upif,
            final(self).timer == (TimerBlock { upif: false, ..old(self).timer }),
            final(self).clock == old(self).clock,
    {
        if !self.timer.upif {
            false
        } else {
            self.clear_update_interrupt_flag();
            true
        }
    }

    /// Pauses the counter; fails when it was not running.
    pub fn cancel(&mut self) -> (r: Result<(), Error>)
        ensures
            old(self).timer.cen ==> r is Ok && final(self).timer == (TimerBlock {
                cen: false,
                ..old(self).timer
            }),
            !old(self).timer.cen ==> r == Err::<(), Error>(Error::Canceled) && *final(self) == *old(
                self,
            ),
            final(self).clock == old(self).clock,
    {
        if !self.timer.cen {
            return Err(Error::Canceled);
        }
        self.timer.cen = false;
        Ok(())
    }
}

} // verus!
