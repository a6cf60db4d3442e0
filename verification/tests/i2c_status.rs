//! The status decoder and the cycle-bounded busy-wait.

use gd32e103_hal::i2c::Error;
use gd32e103_hal::i2c_periph::{
    I2cPeriph, PollOutcome, SimDevice, StatusFlag, WaitOutcome,
};

fn quiet_periph() -> I2cPeriph {
    I2cPeriph::new(SimDevice::responsive(Vec::new()))
}

#[test]
fn decoder_reports_nothing_on_a_quiet_bus() {
    let mut periph = quiet_periph();
    assert_eq!(periph.check_event(StatusFlag::Tbe), PollOutcome::NotYet);
}

#[test]
fn decoder_reports_a_set_flag() {
    let mut periph = quiet_periph();
    periph.tbe = true;
    assert_eq!(periph.check_event(StatusFlag::Tbe), PollOutcome::Ready);
    // Observation of a plain flag does not clear it.
    assert!(periph.tbe);
}

#[test]
fn decoder_reports_and_clears_a_bus_error() {
    let mut periph = quiet_periph();
    periph.berr = true;
    assert_eq!(periph.check_event(StatusFlag::Tbe), PollOutcome::Failed(Error::Bus));
    assert!(!periph.berr);
    assert_eq!(periph.check_event(StatusFlag::Tbe), PollOutcome::NotYet);
}

#[test]
fn decoder_reports_and_clears_arbitration_loss() {
    let mut periph = quiet_periph();
    periph.lostarb = true;
    assert_eq!(
        periph.check_event(StatusFlag::Sbsend),
        PollOutcome::Failed(Error::Arbitration)
    );
    assert!(!periph.lostarb);
}

#[test]
fn decoder_reports_and_clears_an_acknowledge_failure() {
    let mut periph = quiet_periph();
    periph.aerr = true;
    assert_eq!(
        periph.check_event(StatusFlag::Addsend),
        PollOutcome::Failed(Error::Acknowledge)
    );
    assert!(!periph.aerr);
}

#[test]
fn decoder_reports_and_clears_an_overrun() {
    let mut periph = quiet_periph();
    periph.ouerr = true;
    assert_eq!(periph.check_event(StatusFlag::Rbne), PollOutcome::Failed(Error::Overrun));
    assert!(!periph.ouerr);
}

#[test]
fn decoder_priority_is_bus_then_arbitration_then_acknowledge_then_overrun() {
    let mut periph = quiet_periph();
    periph.berr = true;
    periph.lostarb = true;
    periph.aerr = true;
    periph.ouerr = true;
    periph.tbe = true;
    assert_eq!(periph.check_event(StatusFlag::Tbe), PollOutcome::Failed(Error::Bus));
    assert_eq!(
        periph.check_event(StatusFlag::Tbe),
        PollOutcome::Failed(Error::Arbitration)
    );
    assert_eq!(
        periph.check_event(StatusFlag::Tbe),
        PollOutcome::Failed(Error::Acknowledge)
    );
    assert_eq!(periph.check_event(StatusFlag::Tbe), PollOutcome::Failed(Error::Overrun));
    // With every error consumed, the requested flag finally shows through.
    assert_eq!(periph.check_event(StatusFlag::Tbe), PollOutcome::Ready);
}

#[test]
fn wait_returns_ready_when_the_flag_is_up() {
    let mut periph = quiet_periph();
    periph.btc = true;
    assert_eq!(periph.wait_flag(StatusFlag::Btc, 100), WaitOutcome::Ready);
}

#[test]
fn wait_times_out_only_after_the_budget_is_observed() {
    let mut periph = quiet_periph();
    let outcome = periph.wait_flag(StatusFlag::Btc, 7);
    match outcome {
        WaitOutcome::TimedOut(elapsed) => assert!(elapsed >= 7),
        other => panic!("expected a timeout, got {:?}", other),
    }
}

#[test]
fn wait_with_zero_budget_still_polls_once() {
    let mut periph = quiet_periph();
    periph.rbne = true;
    assert_eq!(periph.wait_flag(StatusFlag::Rbne, 0), WaitOutcome::Ready);
    let mut stalled = quiet_periph();
    match stalled.wait_flag(StatusFlag::Rbne, 0) {
        WaitOutcome::TimedOut(elapsed) => assert!(elapsed >= 1),
        other => panic!("expected a timeout, got {:?}", other),
    }
}

#[test]
fn wait_surfaces_a_pending_error() {
    let mut periph = quiet_periph();
    periph.ouerr = true;
    assert_eq!(
        periph.wait_flag(StatusFlag::Tbe, 10),
        WaitOutcome::Fault(Error::Overrun)
    );
    assert!(!periph.ouerr);
}

#[test]
fn cycle_counter_advances_by_one_per_sample_and_wraps() {
    let mut periph = quiet_periph();
    assert_eq!(periph.cycle_count(), 0);
    assert_eq!(periph.cycle_count(), 1);
    periph.cycles = u32::MAX;
    assert_eq!(periph.cycle_count(), u32::MAX);
    assert_eq!(periph.cycle_count(), 0);
}
