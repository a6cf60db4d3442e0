//! Pin type-state transitions and output/input operations.

use gd32e103_hal::gpio::{
    Alternate, Ctl, Dynamic, GpioExt, GpioPort, OpenDrain, Pin, PinExt, PinModeError, PinState,
    Speed,
};
use gd32e103_hal::rcu::Apb2;

fn split_port_b() -> (Ctl, Ctl, Pin<gd32e103_hal::gpio::Input<gd32e103_hal::gpio::Floating>>) {
    let mut apb2 = Apb2::new();
    let parts = GpioPort { port: 1 }.split(&mut apb2);
    (parts.crl, parts.crh, parts.p3)
}

#[test]
fn split_yields_floating_inputs_with_their_numbers() {
    let mut apb2 = Apb2::new();
    let parts = GpioPort { port: 0 }.split(&mut apb2);
    assert_eq!(apb2.enables, 1);
    assert_eq!(parts.p0.pin_id(), 0);
    assert_eq!(parts.p15.pin_id(), 15);
    assert_eq!(parts.p9.port_id(), 0);
    assert_eq!(parts.p9.cnf, 0b01);
    assert_eq!(parts.p9.md, 0b00);
    assert!(!parts.p9.output);
}

#[test]
fn push_pull_output_drives_and_reads_back_the_latch() {
    let (mut crl, _crh, p3) = split_port_b();
    let mut out = p3.into_push_pull_output(&mut crl);
    assert_eq!(out.cnf, 0b00);
    assert_eq!(out.md, 0b11);
    assert!(out.is_set_low());
    out.set_high();
    assert!(out.is_set_high());
    assert_eq!(out.get_state(), PinState::High);
    out.toggle();
    assert!(out.is_set_low());
    out.set_state(PinState::High);
    assert_eq!(out.get_state(), PinState::High);
    out.set_low();
    assert_eq!(out.get_state(), PinState::Low);
}

#[test]
fn push_pull_output_with_state_preloads_the_latch() {
    let (mut crl, _crh, p3) = split_port_b();
    let out = p3.into_push_pull_output_with_state(&mut crl, PinState::High);
    assert!(out.output);
}

#[test]
fn open_drain_output_releases_the_line_on_configuration() {
    let (mut crl, _crh, p3) = split_port_b();
    let out = p3.into_open_drain_output_with_state(&mut crl, PinState::Low);
    // The pull selection of the open-drain mode leaves the latch released.
    assert!(out.output);
    assert_eq!(out.cnf, 0b01);
    assert_eq!(out.md, 0b11);
}

#[test]
fn open_drain_output_reads_the_line_level() {
    let (mut crl, _crh, p3) = split_port_b();
    let mut out = p3.into_open_drain_output(&mut crl);
    out.input = false;
    assert!(out.is_low());
    out.input = true;
    assert!(out.is_high());
}

#[test]
fn pull_inputs_set_the_latch_for_the_pull_direction() {
    let (mut crl, _crh, p3) = split_port_b();
    let up = p3.into_pull_up_input(&mut crl);
    assert!(up.output);
    assert_eq!(up.cnf, 0b10);
    let down = up.into_pull_down_input(&mut crl);
    assert!(!down.output);
    assert_eq!(down.cnf, 0b10);
    assert_eq!(down.md, 0b00);
}

#[test]
fn input_pin_reads_the_sampled_level() {
    let (mut crl, _crh, p3) = split_port_b();
    let mut input = p3.into_floating_input(&mut crl);
    input.input = true;
    assert!(input.is_high());
    input.input = false;
    assert!(input.is_low());
}

#[test]
fn alternate_modes_program_their_nibbles() {
    let (mut crl, _crh, p3) = split_port_b();
    let afpp = p3.into_alternate_push_pull(&mut crl);
    assert_eq!((afpp.cnf, afpp.md), (0b10, 0b11));
    let afod = afpp.into_alternate_open_drain(&mut crl);
    assert_eq!((afod.cnf, afod.md), (0b11, 0b11));
    let analog = afod.into_analog(&mut crl);
    assert_eq!((analog.cnf, analog.md), (0b00, 0b00));
}

#[test]
fn output_speed_sets_the_mode_bits() {
    let (mut crl, _crh, p3) = split_port_b();
    let mut out = p3.into_push_pull_output(&mut crl);
    out.set_speed(&mut crl, Speed::Mhz2);
    assert_eq!(out.md, 0b10);
    out.set_speed(&mut crl, Speed::Mhz50);
    assert_eq!(out.md, 0b11);
    assert_eq!(Speed::Mhz10.bits(), 0b01);
}

#[test]
fn dynamic_pin_tracks_its_configuration() {
    let (mut crl, _crh, p3) = split_port_b();
    let mut dynamic = p3.into_dynamic(&mut crl);
    assert_eq!(dynamic.mode, Dynamic::InputFloating);
    assert!(dynamic.mode.is_input());
    assert!(!dynamic.mode.is_output());

    dynamic.make_push_pull_output(&mut crl);
    assert_eq!(dynamic.mode, Dynamic::OutputPushPull);
    assert!(dynamic.mode.is_output());
    assert!(!dynamic.mode.is_input());

    dynamic.make_open_drain_output(&mut crl);
    assert_eq!(dynamic.mode, Dynamic::OutputOpenDrain);
    // An open-drain output can still read the line.
    assert!(dynamic.mode.is_input());

    dynamic.make_pull_up_input(&mut crl);
    assert_eq!(dynamic.mode, Dynamic::InputPullUp);
    assert!(dynamic.output);

    dynamic.make_pull_down_input(&mut crl);
    assert_eq!(dynamic.mode, Dynamic::InputPullDown);
    assert!(!dynamic.output);

    dynamic.make_floating_input(&mut crl);
    assert_eq!(dynamic.mode, Dynamic::InputFloating);
}

#[test]
fn dynamic_pin_digital_operations_check_the_mode() {
    let (mut crl, _crh, p3) = split_port_b();
    let mut dynamic = p3.into_dynamic(&mut crl);
    // A floating input cannot drive the line.
    assert_eq!(dynamic.set_high(), Err(PinModeError::IncorrectMode));
    dynamic.input = true;
    assert_eq!(dynamic.is_high(), Ok(true));
    assert_eq!(dynamic.is_low(), Ok(false));

    dynamic.make_push_pull_output(&mut crl);
    assert_eq!(dynamic.set_high(), Ok(()));
    assert!(dynamic.output);
    assert_eq!(dynamic.set_low(), Ok(()));
    assert!(!dynamic.output);
    // A push-pull output cannot read the line.
    assert_eq!(dynamic.is_high(), Err(PinModeError::IncorrectMode));

    dynamic.make_open_drain_output(&mut crl);
    // An open-drain output can both drive and read.
    assert_eq!(dynamic.set_low(), Ok(()));
    assert_eq!(dynamic.is_high(), Ok(true));
}

#[test]
fn erase_number_keeps_the_identity() {
    let (mut crl, _crh, p3) = split_port_b();
    let out = p3.into_push_pull_output(&mut crl);
    let erased = out.erase_number();
    assert_eq!(erased.port, 1);
    assert_eq!(erased.pin, 3);
}

#[test]
fn alternate_open_drain_pin_serves_as_an_i2c_pin() {
    let pin: Pin<Alternate<OpenDrain>> = Pin::new(1, 6, Alternate { _mode: OpenDrain });
    assert_eq!(pin.pin_id(), 6);
    assert_eq!(pin.port_id(), 1);
}
