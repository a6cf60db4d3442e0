//! CAN pin routing through the alternate-function remap register.

use gd32e103_hal::can::{AfioRegs, Can};
use gd32e103_hal::gpio::{Alternate, Floating, Input, Pin, PushPull};
use gd32e103_hal::rcu::Apb1;

fn tx(port: u8, pin: u8) -> Pin<Alternate<PushPull>> {
    Pin::new(port, pin, Alternate { _mode: PushPull })
}

fn rx(port: u8, pin: u8) -> Pin<Input<Floating>> {
    Pin::new(port, pin, Input { _mode: Floating })
}

fn afio() -> AfioRegs {
    AfioRegs { can0_remap: 0b01, can1_remap: false }
}

#[test]
fn new_keeps_the_peripheral_and_enables_the_bus() {
    let mut apb = Apb1::new();
    let can = Can::new(7u8, &mut apb);
    assert_eq!(can.peripheral, 7);
    assert_eq!(apb.enables, 1);
}

#[test]
fn first_instance_default_pins_select_no_remap() {
    let mut apb = Apb1::new();
    let can = Can::new(0u8, &mut apb);
    let mut afio = afio();
    can.assign_pins((tx(0, 12), rx(0, 11)), &mut afio);
    assert_eq!(afio.can0_remap, 0b00);
}

#[test]
fn first_instance_port_b_pins_select_the_second_remap() {
    let mut apb = Apb1::new();
    let can = Can::new(0u8, &mut apb);
    let mut afio = afio();
    can.assign_pins((tx(1, 9), rx(1, 8)), &mut afio);
    assert_eq!(afio.can0_remap, 0b10);
}

#[test]
fn first_instance_port_d_pins_select_the_third_remap() {
    let mut apb = Apb1::new();
    let can = Can::new(0u8, &mut apb);
    let mut afio = afio();
    can.assign_pins((tx(3, 1), rx(3, 0)), &mut afio);
    assert_eq!(afio.can0_remap, 0b11);
}

#[test]
fn second_instance_default_pins_clear_its_remap() {
    let mut apb = Apb1::new();
    let can = Can::new(1u8, &mut apb);
    let mut afio = AfioRegs { can0_remap: 0b01, can1_remap: true };
    can.assign_pins((tx(1, 13), rx(1, 12)), &mut afio);
    assert!(!afio.can1_remap);
    // The other instance's routing is untouched.
    assert_eq!(afio.can0_remap, 0b01);
}

#[test]
fn second_instance_alternate_pins_set_its_remap() {
    let mut apb = Apb1::new();
    let can = Can::new(1u8, &mut apb);
    let mut afio = afio();
    can.assign_pins((tx(1, 6), rx(1, 5)), &mut afio);
    assert!(afio.can1_remap);
}
