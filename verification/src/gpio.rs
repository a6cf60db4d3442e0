//! General-purpose I/O pins.
//!
//! Each pin is modelled as a plain value: its port and pin number, its
//! output-latch bit, its sampled input level, and the two configuration
//! fields of its control-register nibble. Mode changes are type-state
//! transitions that consume the pin and return it under its new mode marker,
//! with the configuration fields pinned down by the contract.

use crate::rcu::Apb2;
use vstd::prelude::*;

verus! {

/// Slew rates available for output and relevant alternate-mode pins.
#[derive(Clone, Copy, Debug, PartialEq, Eq, Structural)]
pub enum Speed {
    Mhz10,
    Mhz2,
    Mhz50,
}

/// The two-bit register encoding of a slew rate.
pub open spec fn spec_speed_bits(speed: Speed) -> u8 {
    match speed {
        Speed::Mhz10 => 0b01,
        Speed::Mhz2 => 0b10,
        Speed::Mhz50 => 0b11,
    }
}

impl Speed {
    /// Returns the two-bit register encoding of this slew rate.
    pub fn bits(self) -> (r: u8)
        ensures
            r == spec_speed_bits(self),
    {
        match self {
            Speed::Mhz10 => 0b01,
            Speed::Mhz2 => 0b10,
            Speed::Mhz50 => 0b11,
        }
    }
}

/// Pin identity: every pin knows its pin and port number.
pub trait PinExt {
    /// The pin's current mode marker.
    type Mode;

    /// The pin number.
    spec fn spec_pin_id(&self) -> u8;

    /// The port number.
    spec fn spec_port_id(&self) -> u8;

    /// Returns the pin number.
    fn pin_id(&self) -> (r: u8)
        ensures
            r == self.spec_pin_id(),
    ;

    /// Returns the port number.
    fn port_id(&self) -> (r: u8)
        ensures
            r == self.spec_port_id(),
    ;
}

/// Ties a pin to the control register (low or high half) that configures it.
pub trait HL {
    /// Configuration register token associated to the pin.
    type Ctl;
}

/// Marker trait for active states (anything but the debugger default).
pub trait Active {

}

/// Input mode (type state).
pub struct Input<MODE> {
    pub _mode: MODE,
}

impl<MODE> Active for Input<MODE> {

}

/// Used by the debugger (type state).
pub struct Debugger;

/// Floating input (type state).
pub struct Floating;

/// Pulled-down input (type state).
pub struct PullDown;

/// Pulled-up input (type state).
pub struct PullUp;

/// Output mode (type state).
pub struct Output<MODE> {
    pub _mode: MODE,
}

impl<MODE> Active for Output<MODE> {

}

/// Push-pull output (type state).
pub struct PushPull;

/// Open-drain output (type state).
pub struct OpenDrain;

/// Analog mode (type state).
pub struct Analog;

impl Active for Analog {

}

/// Alternate function (type state).
pub struct Alternate<MODE> {
    pub _mode: MODE,
}

impl<MODE> Active for Alternate<MODE> {

}

/// Digital output pin state.
#[derive(Clone, Copy, Debug, PartialEq, Eq, Structural)]
pub enum PinState {
    High,
    Low,
}

/// The configuration-field values a pin mode programs: the two CNF bits, the
/// two MODE bits, and whether the output latch is forced for pull selection.
pub trait PinMode {
    /// The CNF field value.
    spec fn spec_cnf() -> u8;

    /// The MODE field value.
    spec fn spec_md() -> u8;

    /// The forced output-latch value, when the mode selects a pull.
    spec fn spec_pull() -> Option<bool>;
}

impl PinMode for Input<Floating> {
    open spec fn spec_cnf() -> u8 {
        0b01
    }

    open spec fn spec_md() -> u8 {
        0b00
    }

    open spec fn spec_pull() -> Option<bool> {
        None
    }
}

impl PinMode for Input<PullDown> {
    open spec fn spec_cnf() -> u8 {
        0b10
    }

    open spec fn spec_md() -> u8 {
        0b00
    }

    open spec fn spec_pull() -> Option<bool> {
        Some(false)
    }
}

impl PinMode for Input<PullUp> {
    open spec fn spec_cnf() -> u8 {
        0b10
    }

    open spec fn spec_md() -> u8 {
        0b00
    }

    open spec fn spec_pull() -> Option<bool> {
        Some(true)
    }
}

impl PinMode for Output<OpenDrain> {
    open spec fn spec_cnf() -> u8 {
        0b01
    }

    open spec fn spec_md() -> u8 {
        0b11
    }

    open spec fn spec_pull() -> Option<bool> {
        Some(true)
    }
}

impl PinMode for Output<PushPull> {
    open spec fn spec_cnf() -> u8 {
        0b00
    }

    open spec fn spec_md() -> u8 {
        0b11
    }

    open spec fn spec_pull() -> Option<bool> {
        None
    }
}

impl PinMode for Analog {
    open spec fn spec_cnf() -> u8 {
        0b00
    }

    open spec fn spec_md() -> u8 {
        0b00
    }

    open spec fn spec_pull() -> Option<bool> {
        None
    }
}

impl PinMode for Alternate<PushPull> {
    open spec fn spec_cnf() -> u8 {
        0b10
    }

    open spec fn spec_md() -> u8 {
        0b11
    }

    open spec fn spec_pull() -> Option<bool> {
        None
    }
}

impl PinMode for Alternate<OpenDrain> {
    open spec fn spec_cnf() -> u8 {
        0b11
    }

    open spec fn spec_md() -> u8 {
        0b11
    }

    open spec fn spec_pull() -> Option<bool> {
        None
    }
}

/// Tracks the current pin configuration for dynamic pins.
#[derive(Clone, Copy, Debug, PartialEq, Eq, Structural)]
pub enum Dynamic {
    InputFloating,
    InputPullUp,
    InputPullDown,
    OutputPushPull,
    OutputOpenDrain,
}

impl Active for Dynamic {

}

impl Default for Dynamic {
    /// A dynamic pin starts out as a floating input.
    fn default() -> (r: Dynamic)
        ensures
            r == Dynamic::InputFloating,
    {
        Dynamic::InputFloating
    }
}

/// Error for operations that need a dynamic pin in the other direction.
#[derive(Clone, Copy, Debug, PartialEq, Eq, Structural)]
pub enum PinModeError {
    IncorrectMode,
}

impl Dynamic {
    /// The configuration can be read as an input: everything but a push-pull
    /// output.
    pub open spec fn spec_is_input(self) -> bool {
        !(self is OutputPushPull)
    }

    /// The configuration drives the line.
    pub open spec fn spec_is_output(self) -> bool {
        self is OutputPushPull || self is OutputOpenDrain
    }

    /// The configuration can be read as an input. An open-drain output can
    /// still read the line.
    pub fn is_input(&self) -> (r: bool)
        ensures
            r == self.spec_is_input(),
    {
        match self {
            Dynamic::InputFloating | Dynamic::InputPullUp | Dynamic::InputPullDown
                | Dynamic::OutputOpenDrain => true,
            Dynamic::OutputPushPull => false,
        }
    }

    /// The configuration drives the line.
    pub fn is_output(&self) -> (r: bool)
        ensures
            r == self.spec_is_output(),
    {
        match self {
            Dynamic::InputFloating | Dynamic::InputPullUp | Dynamic::InputPullDown => false,
            Dynamic::OutputPushPull | Dynamic::OutputOpenDrain => true,
        }
    }
}

/// Generic pin type.
///
/// The port and pin number are carried as values; `MODE` is the type-state
/// marker of the pin's current configuration. The `output` field is the
/// output-latch bit of the port's output register, `input` the sampled level
/// of the line, and `cnf`/`md` the pin's nibble of the port configuration
/// register.
pub struct Pin<MODE> {
    /// Port number (0 for port A, 1 for B, and so on).
    pub port: u8,
    /// Pin number, 0 to 15.
    pub pin: u8,
    /// Output-latch bit.
    pub output: bool,
    /// Sampled input level of the line.
    pub input: bool,
    /// CNF configuration field (two bits).
    pub cnf: u8,
    /// MODE configuration field (two bits).
    pub md: u8,
    /// The mode value (a marker, or the tracked state of a dynamic pin).
    pub mode: MODE,
}

/// Opaque configuration-register token: holding it grants the right to
/// reconfigure pins in one half (low or high) of one port.
pub struct Ctl {
    /// Port number the token belongs to.
    pub port: u8,
    /// Whether the token covers the high half (pins 8 to 15).
    pub high: bool,
}

/// The identity (port and pin number) of `a` and `b` agree.
pub open spec fn same_pin_place<A, B>(a: Pin<A>, b: Pin<B>) -> bool {
    a.port == b.port && a.pin == b.pin
}

/// The configuration fields of `a` and `b` agree.
pub open spec fn same_pin_config<A, B>(a: Pin<A>, b: Pin<B>) -> bool {
    a.cnf == b.cnf && a.md == b.md
}

impl<MODE> PinExt for Pin<MODE> {
    type Mode = MODE;

    open spec fn spec_pin_id(&self) -> u8 {
        self.pin
    }

    open spec fn spec_port_id(&self) -> u8 {
        self.port
    }

    fn pin_id(&self) -> (r: u8) {
        self.pin
    }

    fn port_id(&self) -> (r: u8) {
        self.port
    }
}

impl<MODE> HL for Pin<MODE> {
    type Ctl = Ctl;
}

impl<MODE> Pin<MODE> {
    /// A pin in its reset configuration (floating input, latch low) carrying
    /// the given mode marker.
    pub fn new(port: u8, pin: u8, mode: MODE) -> (r: Pin<MODE>)
        ensures
            r.port == port,
            r.pin == pin,
            r.mode == mode,
            !r.output,
            !r.input,
            r.cnf == 0b01,
            r.md == 0b00,
    {
        Pin { port, pin, output: false, input: false, cnf: 0b01, md: 0b00, mode }
    }

    /// Sets the output latch regardless of mode: used to pre-load the output
    /// value before switching to an output mode, avoiding a glitch.
    fn _set_state(&mut self, state: PinState)
        ensures
            final(self).output == (state is High),
            final(self).input == old(self).input,
            same_pin_place(*old(self), *final(self)),
            same_pin_config(*old(self), *final(self)),
            final(self).mode == old(self).mode,
    {
        match state {
            PinState::High => self.output = true,
            PinState::Low => self.output = false,
        }
    }

    /// Writes the configuration nibble and, when the mode selects a pull,
    /// the output latch.
    fn apply_config(&mut self, cnf: u8, md: u8, pull: Option<bool>)
        ensures
            final(self).cnf == cnf,
            final(self).md == md,
            final(self).output == (match pull {
                Some(level) => level,
                None => old(self).output,
            }),
            final(self).input == old(self).input,
            same_pin_place(*old(self), *final(self)),
            final(self).mode == old(self).mode,
    {
        match pull {
            Some(level) => {
                self.output = level;
            },
            None => {},
        }
        self.cnf = cnf;
        self.md = md;
    }
}

impl<MODE> Pin<MODE> where MODE: Active {
    /// Erases the pin number from the type.
    pub fn erase_number(self) -> (r: PartiallyErasedPin<MODE>)
        ensures
            r.port == self.port,
            r.pin == self.pin,
            r.output == self.output,
            r.input == self.input,
            r.mode == self.mode,
    {
        PartiallyErasedPin {
            port: self.port,
            pin: self.pin,
            output: self.output,
            input: self.input,
            mode: self.mode,
        }
    }
}

/// A pin whose number is carried as a value rather than in its type.
pub struct PartiallyErasedPin<MODE> {
    /// Port number.
    pub port: u8,
    /// Pin number.
    pub pin: u8,
    /// Output-latch bit.
    pub output: bool,
    /// Sampled input level.
    pub input: bool,
    /// The mode value.
    pub mode: MODE,
}

impl<MODE> Pin<Output<MODE>> {
    /// Drives the output latch high.
    pub fn set_high(&mut self)
        ensures
            final(self).output,
            final(self).input == old(self).input,
            same_pin_place(*old(self), *final(self)),
            same_pin_config(*old(self), *final(self)),
            final(self).mode == old(self).mode,
    {
        self.output = true;
    }

    /// Drives the output latch low.
    pub fn set_low(&mut self)
        ensures
            !final(self).output,
            final(self).input == old(self).input,
            same_pin_place(*old(self), *final(self)),
            same_pin_config(*old(self), *final(self)),
            final(self).mode == old(self).mode,
    {
        self.output = false;
    }

    /// Returns the state the output latch was last set to.
    pub fn get_state(&self) -> (r: PinState)
        ensures
            r == (if self.output {
                PinState::High
            } else {
                PinState::Low
            }),
    {
        if self.output {
            PinState::High
        } else {
            PinState::Low
        }
    }

    /// Drives the output latch to the given state.
    pub fn set_state(&mut self, state: PinState)
        ensures
            final(self).output == (state is High),
            final(self).input == old(self).input,
            same_pin_place(*old(self), *final(self)),
            same_pin_config(*old(self), *final(self)),
            final(self).mode == old(self).mode,
    {
        self._set_state(state)
    }

    /// The output latch is set high.
    pub fn is_set_high(&self) -> (r: bool)
        ensures
            r == self.output,
    {
        self.output
    }

    /// The output latch is set low.
    pub fn is_set_low(&self) -> (r: bool)
        ensures
            r == !self.output,
    {
        !self.output
    }

    /// Inverts the output latch.
    pub fn toggle(&mut self)
        ensures
            final(self).output == !old(self).output,
            final(self).input == old(self).input,
            same_pin_place(*old(self), *final(self)),
            same_pin_config(*old(self), *final(self)),
            final(self).mode == old(self).mode,
    {
        self.output = !self.output;
    }

    /// Applies a slew rate to the pin's MODE field.
    pub fn set_speed(&mut self, _ctl: &mut Ctl, speed: Speed)
        ensures
            final(self).md == spec_speed_bits(speed),
            final(self).cnf == old(self).cnf,
            final(self).output == old(self).output,
            final(self).input == old(self).input,
            same_pin_place(*old(self), *final(self)),
            final(self).mode == old(self).mode,
    {
        self.md = speed.bits();
    }
}

impl<MODE> Pin<Input<MODE>> {
    /// The line is sampled high.
    pub fn is_high(&self) -> (r: bool)
        ensures
            r == self.input,
    {
        self.input
    }

    /// The line is sampled low.
    pub fn is_low(&self) -> (r: bool)
        ensures
            r == !self.input,
    {
        !self.input
    }
}

impl Pin<Output<OpenDrain>> {
    /// The line is sampled high: an open-drain output can read back the
    /// level the bus actually reached.
    pub fn is_high(&self) -> (r: bool)
        ensures
            r == self.input,
    {
        self.input
    }

    /// The line is sampled low.
    pub fn is_low(&self) -> (r: bool)
        ensures
            r == !self.input,
    {
        !self.input
    }
}

impl<MODE> Pin<MODE> where MODE: Active {
    /// Configures the pin to operate as an alternate-function push-pull
    /// output pin.
    pub fn into_alternate_push_pull(self, _ctl: &mut Ctl) -> (r: Pin<Alternate<PushPull>>)
        ensures
            same_pin_place(self, r),
            r.cnf == 0b10 && r.md == 0b11,
            r.output == self.output,
            r.input == self.input,
    {
        Pin {
            port: self.port,
            pin: self.pin,
            output: self.output,
            input: self.input,
            cnf: 0b10,
            md: 0b11,
            mode: Alternate { _mode: PushPull },
        }
    }

    /// Configures the pin to operate as an alternate-function open-drain
    /// output pin.
    pub fn into_alternate_open_drain(self, _ctl: &mut Ctl) -> (r: Pin<Alternate<OpenDrain>>)
        ensures
            same_pin_place(self, r),
            r.cnf == 0b11 && r.md == 0b11,
            r.output == self.output,
            r.input == self.input,
    {
        Pin {
            port: self.port,
            pin: self.pin,
            output: self.output,
            input: self.input,
            cnf: 0b11,
            md: 0b11,
            mode: Alternate { _mode: OpenDrain },
        }
    }

    /// Configures the pin to operate as a floating input pin.
    pub fn into_floating_input(self, _ctl: &mut Ctl) -> (r: Pin<Input<Floating>>)
        ensures
            same_pin_place(self, r),
            r.cnf == 0b01 && r.md == 0b00,
            r.output == self.output,
            r.input == self.input,
    {
        Pin {
            port: self.port,
            pin: self.pin,
            output: self.output,
            input: self.input,
            cnf: 0b01,
            md: 0b00,
            mode: Input { _mode: Floating },
        }
    }

    /// Configures the pin to operate as a pulled-down input pin.
    pub fn into_pull_down_input(self, _ctl: &mut Ctl) -> (r: Pin<Input<PullDown>>)
        ensures
            same_pin_place(self, r),
            r.cnf == 0b10 && r.md == 0b00,
            !r.output,
            r.input == self.input,
    {
        Pin {
            port: self.port,
            pin: self.pin,
            output: false,
            input: self.input,
            cnf: 0b10,
            md: 0b00,
            mode: Input { _mode: PullDown },
        }
    }

    /// Configures the pin to operate as a pulled-up input pin.
    pub fn into_pull_up_input(self, _ctl: &mut Ctl) -> (r: Pin<Input<PullUp>>)
        ensures
            same_pin_place(self, r),
            r.cnf == 0b10 && r.md == 0b00,
            r.output,
            r.input == self.input,
    {
        Pin {
            port: self.port,
            pin: self.pin,
            output: true,
            input: self.input,
            cnf: 0b10,
            md: 0b00,
            mode: Input { _mode: PullUp },
        }
    }

    /// Configures the pin to operate as an open-drain output pin with an
    /// initial state of low. The pull selection of this mode leaves the
    /// latch released (high) after configuration.
    pub fn into_open_drain_output(self, ctl: &mut Ctl) -> (r: Pin<Output<OpenDrain>>)
        ensures
            same_pin_place(self, r),
            r.cnf == 0b01 && r.md == 0b11,
            r.output,
            r.input == self.input,
    {
        self.into_open_drain_output_with_state(ctl, PinState::Low)
    }

    /// Configures the pin to operate as an open-drain output pin, pre-loading
    /// the given state before the mode switch. The pull selection of this
    /// mode leaves the latch released (high) after configuration.
    pub fn into_open_drain_output_with_state(self, _ctl: &mut Ctl, _initial_state: PinState) -> (r:
        Pin<Output<OpenDrain>>)
        ensures
            same_pin_place(self, r),
            r.cnf == 0b01 && r.md == 0b11,
            r.output,
            r.input == self.input,
    {
        Pin {
            port: self.port,
            pin: self.pin,
            output: true,
            input: self.input,
            cnf: 0b01,
            md: 0b11,
            mode: Output { _mode: OpenDrain },
        }
    }

    /// Configures the pin to operate as a push-pull output pin with an
    /// initial state of low.
    pub fn into_push_pull_output(self, ctl: &mut Ctl) -> (r: Pin<Output<PushPull>>)
        ensures
            same_pin_place(self, r),
            r.cnf == 0b00 && r.md == 0b11,
            !r.output,
            r.input == self.input,
    {
        self.into_push_pull_output_with_state(ctl, PinState::Low)
    }

    /// Configures the pin to operate as a push-pull output pin, pre-loading
    /// the given state before the mode switch.
    pub fn into_push_pull_output_with_state(self, _ctl: &mut Ctl, initial_state: PinState) -> (r:
        Pin<Output<PushPull>>)
        ensures
            same_pin_place(self, r),
            r.cnf == 0b00 && r.md == 0b11,
            r.output == (initial_state is High),
            r.input == self.input,
    {
        let loaded: bool = match initial_state {
            PinState::High => true,
            PinState::Low => false,
        };
        Pin {
            port: self.port,
            pin: self.pin,
            output: loaded,
            input: self.input,
            cnf: 0b00,
            md: 0b11,
            mode: Output { _mode: PushPull },
        }
    }

    /// Configures the pin to operate as an analog input pin.
    pub fn into_analog(self, _ctl: &mut Ctl) -> (r: Pin<Analog>)
        ensures
            same_pin_place(self, r),
            r.cnf == 0b00 && r.md == 0b00,
            r.output == self.output,
            r.input == self.input,
    {
        Pin {
            port: self.port,
            pin: self.pin,
            output: self.output,
            input: self.input,
            cnf: 0b00,
            md: 0b00,
            mode: Analog,
        }
    }

    /// Configures the pin as a pin that can change between input and output
    /// without changing the type. It starts out as a floating input.
    pub fn into_dynamic(self, _ctl: &mut Ctl) -> (r: Pin<Dynamic>)
        ensures
            same_pin_place(self, r),
            r.cnf == 0b01 && r.md == 0b00,
            r.mode == Dynamic::InputFloating,
            r.output == self.output,
            r.input == self.input,
    {
        Pin {
            port: self.port,
            pin: self.pin,
            output: self.output,
            input: self.input,
            cnf: 0b01,
            md: 0b00,
            mode: Dynamic::InputFloating,
        }
    }
}

impl Pin<Dynamic> {
    /// Reconfigures the dynamic pin as a pulled-up input.
    pub fn make_pull_up_input(&mut self, _ctl: &mut Ctl)
        ensures
            final(self).cnf == 0b10 && final(self).md == 0b00,
            final(self).output,
            final(self).mode == Dynamic::InputPullUp,
            final(self).input == old(self).input,
            same_pin_place(*old(self), *final(self)),
    {
        self.apply_config(0b10, 0b00, Some(true));
        self.mode = Dynamic::InputPullUp;
    }

    /// Reconfigures the dynamic pin as a pulled-down input.
    pub fn make_pull_down_input(&mut self, _ctl: &mut Ctl)
        ensures
            final(self).cnf == 0b10 && final(self).md == 0b00,
            !final(self).output,
            final(self).mode == Dynamic::InputPullDown,
            final(self).input == old(self).input,
            same_pin_place(*old(self), *final(self)),
    {
        self.apply_config(0b10, 0b00, Some(false));
        self.mode = Dynamic::InputPullDown;
    }

    /// Reconfigures the dynamic pin as a floating input.
    pub fn make_floating_input(&mut self, _ctl: &mut Ctl)
        ensures
            final(self).cnf == 0b01 && final(self).md == 0b00,
            final(self).output == old(self).output,
            final(self).mode == Dynamic::InputFloating,
            final(self).input == old(self).input,
            same_pin_place(*old(self), *final(self)),
    {
        self.apply_config(0b01, 0b00, None);
        self.mode = Dynamic::InputFloating;
    }

    /// Reconfigures the dynamic pin as a push-pull output.
    pub fn make_push_pull_output(&mut self, _ctl: &mut Ctl)
        ensures
            final(self).cnf == 0b00 && final(self).md == 0b11,
            final(self).output == old(self).output,
            final(self).mode == Dynamic::OutputPushPull,
            final(self).input == old(self).input,
            same_pin_place(*old(self), *final(self)),
    {
        self.apply_config(0b00, 0b11, None);
        self.mode = Dynamic::OutputPushPull;
    }

    /// Reconfigures the dynamic pin as an open-drain output. The pull
    /// selection of this mode leaves the latch released (high).
    pub fn make_open_drain_output(&mut self, _ctl: &mut Ctl)
        ensures
            final(self).cnf == 0b01 && final(self).md == 0b11,
            final(self).output,
            final(self).mode == Dynamic::OutputOpenDrain,
            final(self).input == old(self).input,
            same_pin_place(*old(self), *final(self)),
    {
        self.apply_config(0b01, 0b11, Some(true));
        self.mode = Dynamic::OutputOpenDrain;
    }
}

impl Pin<Dynamic> {
    /// Drives the latch high when the pin is configured as an output; a pin
    /// in an input configuration reports the mode error instead.
    pub fn set_high(&mut self) -> (r: Result<(), PinModeError>)
        ensures
            old(self).mode.spec_is_output() ==> r is Ok && final(self).output,
            !old(self).mode.spec_is_output() ==> r == Err::<(), PinModeError>(
                PinModeError::IncorrectMode,
            ) && final(self).output == old(self).output,
            final(self).input == old(self).input,
            same_pin_place(*old(self), *final(self)),
            same_pin_config(*old(self), *final(self)),
            final(self).mode == old(self).mode,
    {
        if self.mode.is_output() {
            self.output = true;
            Ok(())
        } else {
            Err(PinModeError::IncorrectMode)
        }
    }

    /// Drives the latch low when the pin is configured as an output; a pin
    /// in an input configuration reports the mode error instead.
    pub fn set_low(&mut self) -> (r: Result<(), PinModeError>)
        ensures
            old(self).mode.spec_is_output() ==> r is Ok && !final(self).output,
            !old(self).mode.spec_is_output() ==> r == Err::<(), PinModeError>(
                PinModeError::IncorrectMode,
            ) && final(self).output == old(self).output,
            final(self).input == old(self).input,
            same_pin_place(*old(self), *final(self)),
            same_pin_config(*old(self), *final(self)),
            final(self).mode == old(self).mode,
    {
        if self.mode.is_output() {
            self.output = false;
            Ok(())
        } else {
            Err(PinModeError::IncorrectMode)
        }
    }

    /// The line is sampled high, when the configuration can read the line.
    pub fn is_high(&self) -> (r: Result<bool, PinModeError>)
        ensures
            self.mode.spec_is_input() ==> r == Ok::<bool, PinModeError>(self.input),
            !self.mode.spec_is_input() ==> r == Err::<bool, PinModeError>(
                PinModeError::IncorrectMode,
            ),
    {
        match self.is_low() {
            Ok(low) => Ok(!low),
            Err(e) => Err(e),
        }
    }

    /// The line is sampled low, when the configuration can read the line.
    pub fn is_low(&self) -> (r: Result<bool, PinModeError>)
        ensures
            self.mode.spec_is_input() ==> r == Ok::<bool, PinModeError>(!self.input),
            !self.mode.spec_is_input() ==> r == Err::<bool, PinModeError>(
                PinModeError::IncorrectMode,
            ),
    {
        if self.mode.is_input() {
            Ok(!self.input)
        } else {
            Err(PinModeError::IncorrectMode)
        }
    }
}

/// Allows setting the slew rate of an output-capable pin.
pub trait OutputSpeed {
    /// The pin's MODE field holds the given slew rate.
    spec fn speed_is(&self, speed: Speed) -> bool;

    /// Applies a slew rate to the pin.
    fn output_speed(&mut self, ctl: &mut Ctl, speed: Speed)
        ensures
            final(self).speed_is(speed),
    ;
}

impl<MODE> OutputSpeed for Pin<Output<MODE>> {
    open spec fn speed_is(&self, speed: Speed) -> bool {
        self.md == spec_speed_bits(speed)
    }

    fn output_speed(&mut self, ctl: &mut Ctl, speed: Speed) {
        self.set_speed(ctl, speed)
    }
}

impl OutputSpeed for Pin<Alternate<PushPull>> {
    open spec fn speed_is(&self, speed: Speed) -> bool {
        self.md == spec_speed_bits(speed)
    }

    fn output_speed(&mut self, ctl: &mut Ctl, speed: Speed) {
        self.md = speed.bits();
    }
}

/// Extension trait to split a GPIO port into independent pins and
/// configuration tokens.
pub trait GpioExt {
    /// The parts the port splits into.
    type Parts;

    /// The parts produced by splitting, as a function of the port.
    spec fn split_spec(self) -> Self::Parts;

    /// Splits the port into independent pins and configuration tokens,
    /// enabling and resetting the port on its bus.
    fn split(self, apb2: &mut Apb2) -> (r: Self::Parts)
        ensures
            r == self.split_spec(),
    ;
}

/// Ownership of one GPIO port's register block.
pub struct GpioPort {
    /// Port number (0 for port A, 1 for B, and so on).
    pub port: u8,
}

/// The independent pins and the two configuration tokens of one port, every
/// pin in its reset configuration.
pub struct Parts {
    /// Configuration token for pins 0 to 7.
    pub crl: Ctl,
    /// Configuration token for pins 8 to 15.
    pub crh: Ctl,
    pub p0: Pin<Input<Floating>>,
    pub p1: Pin<Input<Floating>>,
    pub p2: Pin<Input<Floating>>,
    pub p3: Pin<Input<Floating>>,
    pub p4: Pin<Input<Floating>>,
    pub p5: Pin<Input<Floating>>,
    pub p6: Pin<Input<Floating>>,
    pub p7: Pin<Input<Floating>>,
    pub p8: Pin<Input<Floating>>,
    pub p9: Pin<Input<Floating>>,
    pub p10: Pin<Input<Floating>>,
    pub p11: Pin<Input<Floating>>,
    pub p12: Pin<Input<Floating>>,
    pub p13: Pin<Input<Floating>>,
    pub p14: Pin<Input<Floating>>,
    pub p15: Pin<Input<Floating>>,
}

/// A fresh floating-input pin of the given port and number, in spec form.
pub open spec fn spec_reset_pin(port: u8, pin: u8) -> Pin<Input<Floating>> {
    Pin {
        port,
        pin,
        output: false,
        input: false,
        cnf: 0b01,
        md: 0b00,
        mode: Input { _mode: Floating },
    }
}

impl GpioExt for GpioPort {
    type Parts = Parts;

    open spec fn split_spec(self) -> Parts {
        Parts {
            crl: Ctl { port: self.port, high: false },
            crh: Ctl { port: self.port, high: true },
            p0: spec_reset_pin(self.port, 0),
            p1: spec_reset_pin(self.port, 1),
            p2: spec_reset_pin(self.port, 2),
            p3: spec_reset_pin(self.port, 3),
            p4: spec_reset_pin(self.port, 4),
            p5: spec_reset_pin(self.port, 5),
            p6: spec_reset_pin(self.port, 6),
            p7: spec_reset_pin(self.port, 7),
            p8: spec_reset_pin(self.port, 8),
            p9: spec_reset_pin(self.port, 9),
            p10: spec_reset_pin(self.port, 10),
            p11: spec_reset_pin(self.port, 11),
            p12: spec_reset_pin(self.port, 12),
            p13: spec_reset_pin(self.port, 13),
            p14: spec_reset_pin(self.port, 14),
            p15: spec_reset_pin(self.port, 15),
        }
    }

    fn split(self, apb2: &mut Apb2) -> (r: Parts) {
        apb2.enables = if apb2.enables == u32::MAX {
            apb2.enables
        } else {
            apb2.enables + 1
        };
        Parts {
            crl: Ctl { port: self.port, high: false },
            crh: Ctl { port: self.port, high: true },
            p0: Pin::new(self.port, 0, Input { _mode: Floating }),
            p1: Pin::new(self.port, 1, Input { _mode: Floating }),
            p2: Pin::new(self.port, 2, Input { _mode: Floating }),
            p3: Pin::new(self.port, 3, Input { _mode: Floating }),
            p4: Pin::new(self.port, 4, Input { _mode: Floating }),
            p5: Pin::new(self.port, 5, Input { _mode: Floating }),
            p6: Pin::new(self.port, 6, Input { _mode: Floating }),
            p7: Pin::new(self.port, 7, Input { _mode: Floating }),
            p8: Pin::new(self.port, 8, Input { _mode: Floating }),
            p9: Pin::new(self.port, 9, Input { _mode: Floating }),
            p10: Pin::new(self.port, 10, Input { _mode: Floating }),
            p11: Pin::new(self.port, 11, Input { _mode: Floating }),
            p12: Pin::new(self.port, 12, Input { _mode: Floating }),
            p13: Pin::new(self.port, 13, Input { _mode: Floating }),
            p14: Pin::new(self.port, 14, Input { _mode: Floating }),
            p15: Pin::new(self.port, 15, Input { _mode: Floating }),
        }
    }
}

} // verus!
