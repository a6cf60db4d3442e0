//! PWM configuration over the advanced timer model.

use gd32e103_hal::gpio::{Alternate, Pin as GpioPin, PushPull};
use gd32e103_hal::pwm::{
    BreakMode, Channel, IdleState, Polarity, PwmChannel, TimerRegExt,
};
use gd32e103_hal::rcu::{Apb2, Clocks};
use gd32e103_hal::time::Hertz;
use gd32e103_hal::timer::{Timer, TimerBlock};

type Ap = GpioPin<Alternate<PushPull>>;

fn clocks() -> Clocks {
    Clocks {
        sysclk: Hertz(72_000_000),
        hclk: Hertz(72_000_000),
        pclk1: Hertz(36_000_000),
        pclk2: Hertz(72_000_000),
    }
}

fn alt_pin(pin: u8) -> Ap {
    GpioPin::new(0, pin, Alternate { _mode: PushPull })
}

#[test]
fn reg_ext_enables_and_disables_channels() {
    let mut block = TimerBlock::new();
    block.enable_channel(Channel::C1, true);
    assert!(block.ch1.en);
    assert!(block.ch1.nen);
    assert!(!block.ch0.en);
    block.disable_channel(Channel::C1, false);
    assert!(!block.ch1.en);
    // Without the complementary selection the complementary output stays.
    assert!(block.ch1.nen);
    block.disable_channel(Channel::C1, true);
    assert!(!block.ch1.nen);
}

#[test]
fn reg_ext_duty_and_max_duty() {
    let mut block = TimerBlock::new();
    block.car = 999;
    block.set_duty(Channel::C2, 250);
    assert_eq!(block.get_duty(Channel::C2), 250);
    assert_eq!(block.get_duty(Channel::C0), 0);
    assert_eq!(block.get_max_duty(), 999);
}

#[test]
fn pwm_constructor_configures_used_channels_and_timing() {
    let mut apb2 = Apb2::new();
    let timer = Timer::timer0(TimerBlock::new(), &clocks(), &mut apb2);
    let pins = (Some(alt_pin(8)), None::<Ap>, Some(alt_pin(10)), None::<Ap>);
    let pwm = timer.pwm(pins, Hertz(1000));
    assert!(pwm.timer.ch0.pwm_mode);
    assert!(!pwm.timer.ch1.pwm_mode);
    assert!(pwm.timer.ch2.pwm_mode);
    assert!(!pwm.timer.ch3.pwm_mode);
    assert_eq!(pwm.timer.psc, 1);
    assert_eq!(pwm.timer.car, 36_000);
    assert!(pwm.timer.cen);
    assert!(pwm.timer.cchp.oaen);
}

#[test]
fn polarity_and_idle_state_reach_only_their_channel() {
    let mut apb2 = Apb2::new();
    let timer = Timer::timer0(TimerBlock::new(), &clocks(), &mut apb2);
    let pins = (Some(alt_pin(8)), Some(alt_pin(9)), None::<Ap>, None::<Ap>);
    let mut pwm = timer.pwm(pins, Hertz(1000));

    pwm.set_polarity(Channel::C0, Polarity::Inverted);
    assert!(pwm.timer.ch0.p_inverted);
    assert!(!pwm.timer.ch1.p_inverted);

    pwm.set_idle_state(Channel::C1, IdleState::High);
    assert!(pwm.timer.ch1.iso_high);
    assert!(!pwm.timer.ch0.iso_high);
}

#[test]
fn complementary_pins_drive_the_complementary_outputs() {
    let mut apb2 = Apb2::new();
    let timer = Timer::timer0(TimerBlock::new(), &clocks(), &mut apb2);
    let pins = (
        Some((alt_pin(8), alt_pin(13))),
        None::<(Ap, Ap)>,
        None::<(Ap, Ap)>,
    );
    let mut pwm = timer.pwm(pins, Hertz(1000));
    pwm.set_complementary_polarity(Channel::C0, Polarity::Inverted);
    assert!(pwm.timer.ch0.np_inverted);
    assert!(!pwm.timer.ch0.p_inverted);
    pwm.set_complementary_idle_state(Channel::C0, IdleState::High);
    assert!(pwm.timer.ch0.ison_high);
    assert!(!pwm.timer.ch0.iso_high);
}

#[test]
fn break_modes_program_enable_and_polarity() {
    let mut apb2 = Apb2::new();
    let timer = Timer::timer0(TimerBlock::new(), &clocks(), &mut apb2);
    let pins = (Some(alt_pin(8)), None::<Ap>, None::<Ap>, None::<Ap>);
    let mut pwm = timer.pwm(pins, Hertz(1000));

    pwm.break_enable(BreakMode::ActiveLow);
    assert!(pwm.timer.cchp.brken);
    assert!(pwm.timer.cchp.brkp_inverted);

    pwm.break_enable(BreakMode::ActiveHigh);
    assert!(pwm.timer.cchp.brken);
    assert!(!pwm.timer.cchp.brkp_inverted);

    pwm.break_enable(BreakMode::Disabled);
    assert!(!pwm.timer.cchp.brken);
}

#[test]
fn dead_time_encoding_is_piecewise() {
    let mut apb2 = Apb2::new();
    let timer = Timer::timer0(TimerBlock::new(), &clocks(), &mut apb2);
    let pins = (Some(alt_pin(8)), None::<Ap>, None::<Ap>, None::<Ap>);
    let mut pwm = timer.pwm(pins, Hertz(1000));

    pwm.set_dead_time(100);
    assert_eq!(pwm.timer.cchp.dtcfg, 100);
    pwm.set_dead_time(200);
    assert_eq!(pwm.timer.cchp.dtcfg, 164);
    pwm.set_dead_time(300);
    assert_eq!(pwm.timer.cchp.dtcfg, 197);
    pwm.set_dead_time(600);
    assert_eq!(pwm.timer.cchp.dtcfg, 229);
}

#[test]
fn split_channel_owns_its_registers() {
    let mut channel = PwmChannel {
        channel: Channel::C0,
        regs: TimerBlock::new().ch0,
        max_duty: 999,
        pin: alt_pin(8),
    };
    channel.enable();
    assert!(channel.regs.en);
    channel.set_duty(42);
    assert_eq!(channel.get_duty(), 42);
    assert_eq!(channel.get_max_duty(), 999);
    channel.disable();
    assert!(!channel.regs.en);
}
