//! Controller Area Network (CAN) interface plumbing.
//!
//! The CAN cell itself is an external collaborator; this module owns taking
//! the peripheral into service and routing its TX and RX signals to a valid
//! pin pair through the alternate-function remap register.
//!
//! Valid pin pairs (TX as alternate push-pull, RX as floating input):
//! for the first instance PA12/PA11, PB9/PB8, or PD1/PD0; for the second
//! instance PB13/PB12 or PB6/PB5.

use crate::gpio::{Alternate, Floating, Input, Pin as GpioPin, PushPull};
use crate::rcu::Apb1;
use vstd::prelude::*;

verus! {

/// Model of the alternate-function remap register fields that route CAN
/// signals.
#[derive(Clone, Copy, Debug, PartialEq, Eq, Structural)]
pub struct AfioRegs {
    /// Remap selection for the first CAN instance (two bits).
    pub can0_remap: u8,
    /// Remap selection for the second CAN instance.
    pub can1_remap: bool,
}

/// Restricts [`Pins`] to the pin pairs this module defines.
pub trait Sealed {

}

/// The remap value a TX/RX pin pair selects on the first CAN instance, when
/// the pair belongs to it.
pub open spec fn spec_can0_remap(tx_port: u8, tx_pin: u8, rx_port: u8, rx_pin: u8) -> Option<
    u8,
> {
    if tx_port == 0 && tx_pin == 12 && rx_port == 0 && rx_pin == 11 {
        Some(0b00u8)
    } else if tx_port == 1 && tx_pin == 9 && rx_port == 1 && rx_pin == 8 {
        Some(0b10u8)
    } else if tx_port == 3 && tx_pin == 1 && rx_port == 3 && rx_pin == 0 {
        Some(0b11u8)
    } else {
        None
    }
}

/// The remap value a TX/RX pin pair selects on the second CAN instance, when
/// the pair belongs to it.
pub open spec fn spec_can1_remap(tx_port: u8, tx_pin: u8, rx_port: u8, rx_pin: u8) -> Option<
    bool,
> {
    if tx_port == 1 && tx_pin == 13 && rx_port == 1 && rx_pin == 12 {
        Some(false)
    } else if tx_port == 1 && tx_pin == 6 && rx_port == 1 && rx_pin == 5 {
        Some(true)
    } else {
        None
    }
}

/// A TX/RX pin pair that a CAN instance can be routed to.
pub trait Pins: Sealed {
    /// The pair is one of the documented routings.
    spec fn spec_valid(&self) -> bool;

    /// The remap register change this pair asks for.
    spec fn spec_applies(&self, pre: AfioRegs, post: AfioRegs) -> bool;

    /// Routes the CAN TX and RX signals to this pin pair.
    fn remap(&self, afio: &mut AfioRegs)
        requires
            self.spec_valid(),
        ensures
            self.spec_applies(*old(afio), *final(afio)),
    ;
}

impl Sealed for (GpioPin<Alternate<PushPull>>, GpioPin<Input<Floating>>) {

}

impl Pins for (GpioPin<Alternate<PushPull>>, GpioPin<Input<Floating>>) {
    open spec fn spec_valid(&self) -> bool {
        spec_can0_remap(self.0.port, self.0.pin, self.1.port, self.1.pin) is Some
            || spec_can1_remap(self.0.port, self.0.pin, self.1.port, self.1.pin) is Some
    }

    open spec fn spec_applies(&self, pre: AfioRegs, post: AfioRegs) -> bool {
        match spec_can0_remap(self.0.port, self.0.pin, self.1.port, self.1.pin) {
            Some(value) => post == (AfioRegs { can0_remap: value, ..pre }),
            None => match spec_can1_remap(self.0.port, self.0.pin, self.1.port, self.1.pin) {
                Some(value) => post == (AfioRegs { can1_remap: value, ..pre }),
                None => true,
            },
        }
    }

    fn remap(&self, afio: &mut AfioRegs) {
        let tx_port = self.0.port;
        let tx_pin = self.0.pin;
        let rx_port = self.1.port;
        let rx_pin = self.1.pin;
        if tx_port == 0 && tx_pin == 12 && rx_port == 0 && rx_pin == 11 {
            afio.can0_remap = 0b00;
        } else if tx_port == 1 && tx_pin == 9 && rx_port == 1 && rx_pin == 8 {
            afio.can0_remap = 0b10;
        } else if tx_port == 3 && tx_pin == 1 && rx_port == 3 && rx_pin == 0 {
            afio.can0_remap = 0b11;
        } else if tx_port == 1 && tx_pin == 13 && rx_port == 1 && rx_pin == 12 {
            afio.can1_remap = false;
        } else {
            afio.can1_remap = true;
        }
    }
}

/// Interface to a CAN peripheral: owns the register block and keeps its bus
/// clock enabled.
pub struct Can<Instance> {
    /// The owned peripheral register block.
    pub peripheral: Instance,
}

impl<Instance> Can<Instance> {
    /// Creates a CAN interface, enabling the peripheral on its bus.
    pub fn new(can: Instance, apb: &mut Apb1) -> (r: Can<Instance>)
        ensures
            r.peripheral == can,
            final(apb).enables == (if old(apb).enables == u32::MAX {
                old(apb).enables
            } else {
                (old(apb).enables + 1) as u32
            }),
    {
        apb.enables = if apb.enables == u32::MAX {
            apb.enables
        } else {
            apb.enables + 1
        };
        Can { peripheral: can }
    }

    /// Routes the CAN TX and RX signals to the given pin pair.
    pub fn assign_pins<P: Pins>(&self, pins: P, afio: &mut AfioRegs)
        requires
            pins.spec_valid(),
        ensures
            pins.spec_applies(*old(afio), *final(afio)),
    {
        pins.remap(afio);
    }
}

} // verus!
