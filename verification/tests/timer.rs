//! Timer configuration: prescaler/reload computation, count-down control,
//! and the elapsed-time helpers.

use gd32e103_hal::rcu::{Apb2, Clocks};
use gd32e103_hal::time::Hertz;
use gd32e103_hal::timer::{
    compute_prescaler_reload, CountDownTimer, DbgRegs, DebugHold, Error, Event, MasterMode, Syst,
    Timer, TimerBlock,
};

fn clocks() -> Clocks {
    Clocks {
        sysclk: Hertz(72_000_000),
        hclk: Hertz(72_000_000),
        pclk1: Hertz(36_000_000),
        pclk2: Hertz(72_000_000),
    }
}

fn idle_syst() -> Syst {
    Syst {
        reload: 0,
        current: 0,
        enabled: false,
        interrupt: false,
        wrapped: false,
        core_source: false,
    }
}

#[test]
fn prescaler_reload_for_small_tick_counts_uses_no_prescaling() {
    assert_eq!(
        compute_prescaler_reload(Hertz(1000), Hertz(1_000_000)),
        (0, 1000)
    );
}

#[test]
fn prescaler_reload_for_one_hertz_at_full_clock() {
    // 72 000 000 ticks per period: prescaler 1098, reload 65514.
    assert_eq!(
        compute_prescaler_reload(Hertz(1), Hertz(72_000_000)),
        (1098, 65514)
    );
}

#[test]
fn timer0_takeover_resets_the_block_and_records_the_clock() {
    let mut apb2 = Apb2::new();
    let timer = Timer::timer0(TimerBlock::new(), &clocks(), &mut apb2);
    assert_eq!(apb2.enables, 1);
    assert_eq!(timer.clock, Hertz(72_000_000));
    assert!(!timer.timer.cen);
}

#[test]
fn count_down_programs_prescaler_and_reload_and_runs() {
    let mut apb2 = Apb2::new();
    let timer = Timer::timer0(TimerBlock::new(), &clocks(), &mut apb2);
    let cdt = timer.start_count_down(Hertz(1));
    assert_eq!(cdt.timer.psc, 1098);
    assert_eq!(cdt.timer.car, 65514);
    assert_eq!(cdt.timer.cnt, 0);
    assert!(cdt.timer.cen);
}

#[test]
fn start_master_also_selects_the_master_mode() {
    let mut apb2 = Apb2::new();
    let timer = Timer::timer0(TimerBlock::new(), &clocks(), &mut apb2);
    let cdt = timer.start_master(Hertz(1000), MasterMode::Update);
    assert_eq!(cdt.timer.mmc, MasterMode::Update);
    assert!(cdt.timer.cen);
}

#[test]
fn listen_and_unlisten_toggle_the_update_interrupt() {
    let mut apb2 = Apb2::new();
    let mut cdt = Timer::timer0(TimerBlock::new(), &clocks(), &mut apb2).start_count_down(
        Hertz(1000),
    );
    cdt.listen(Event::Update);
    assert!(cdt.timer.upie);
    cdt.unlisten(Event::Update);
    assert!(!cdt.timer.upie);
}

#[test]
fn wait_consumes_a_pending_update_event() {
    let mut apb2 = Apb2::new();
    let mut cdt = Timer::timer0(TimerBlock::new(), &clocks(), &mut apb2).start_count_down(
        Hertz(1000),
    );
    assert!(!cdt.wait());
    cdt.timer.upif = true;
    assert!(cdt.wait());
    assert!(!cdt.timer.upif);
}

#[test]
fn cancel_fails_when_the_timer_is_not_running() {
    let mut apb2 = Apb2::new();
    let mut cdt = Timer::timer0(TimerBlock::new(), &clocks(), &mut apb2).start_count_down(
        Hertz(1000),
    );
    assert_eq!(cdt.cancel(), Ok(()));
    assert!(!cdt.timer.cen);
    assert_eq!(cdt.cancel(), Err(Error::Canceled));
}

#[test]
fn stop_and_release_return_the_halted_block() {
    let mut apb2 = Apb2::new();
    let cdt = Timer::timer0(TimerBlock::new(), &clocks(), &mut apb2).start_count_down(
        Hertz(1000),
    );
    let block = cdt.release();
    assert!(!block.cen);
}

#[test]
fn micros_since_scales_the_count_by_the_divided_clock() {
    let mut timer = TimerBlock::new();
    timer.psc = 0;
    timer.cnt = 500;
    let cdt = CountDownTimer { timer, clock: Hertz(1_000_000) };
    assert_eq!(cdt.micros_since(), 500);
}

#[test]
fn reset_clears_the_counter() {
    let mut apb2 = Apb2::new();
    let mut cdt = Timer::timer0(TimerBlock::new(), &clocks(), &mut apb2).start_count_down(
        Hertz(1000),
    );
    cdt.timer.cnt = 123;
    cdt.reset();
    assert_eq!(cdt.timer.cnt, 0);
}

#[test]
fn stop_in_debug_programs_the_hold_selection() {
    let mut apb2 = Apb2::new();
    let mut timer = Timer::timer0(TimerBlock::new(), &clocks(), &mut apb2);
    let mut dbg = DbgRegs { timer0_hold: DebugHold::Continue };
    timer.stop_in_debug(&mut dbg, DebugHold::Pause);
    assert_eq!(dbg.timer0_hold, DebugHold::Pause);
}

#[test]
fn clocking_reset_restores_the_reset_state() {
    let mut apb2 = Apb2::new();
    let mut timer = Timer::timer0(TimerBlock::new(), &clocks(), &mut apb2);
    timer.timer.psc = 99;
    timer.clocking_reset(&mut apb2);
    assert_eq!(timer.timer.psc, 0);
}

#[test]
fn syst_count_down_programs_the_reload() {
    let timer = Timer::syst(idle_syst(), &clocks());
    assert!(timer.timer.core_source);
    let cdt = timer.start_count_down(Hertz(1000));
    assert_eq!(cdt.timer.reload, 71_999);
    assert_eq!(cdt.timer.current, 0);
    assert!(cdt.timer.enabled);
}

#[test]
fn syst_wait_consumes_the_wrap_flag() {
    let mut cdt = Timer::syst(idle_syst(), &clocks()).start_count_down(Hertz(1000));
    assert!(!cdt.wait());
    cdt.timer.wrapped = true;
    assert!(cdt.wait());
    assert!(!cdt.timer.wrapped);
}

#[test]
fn syst_listen_reset_cancel_and_release() {
    let mut cdt = Timer::syst(idle_syst(), &clocks()).start_count_down(Hertz(1000));
    cdt.listen(Event::Update);
    assert!(cdt.timer.interrupt);
    cdt.unlisten(Event::Update);
    assert!(!cdt.timer.interrupt);
    cdt.timer.current = 55;
    cdt.reset();
    assert_eq!(cdt.timer.current, 0);
    assert_eq!(cdt.cancel(), Ok(()));
    assert_eq!(cdt.cancel(), Err(Error::Canceled));
    let syst = cdt.release();
    assert!(!syst.enabled);
}

#[test]
fn syst_micros_since_scales_elapsed_ticks() {
    let mut cdt = Timer::syst(idle_syst(), &clocks()).start_count_down(Hertz(1000));
    cdt.timer.current = 71_999;
    assert_eq!(cdt.micros_since(), 0);
    cdt.timer.current = 0;
    // 71 999 ticks at 72 MHz is 999 whole microseconds.
    assert_eq!(cdt.micros_since(), 999);
}
