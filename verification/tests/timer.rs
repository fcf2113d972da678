//! Tests for the timer counters: timeout programming, non-blocking
//! waiting and interrupt flag handling.

use samd_hal::clock::GenericClockController;
use samd_hal::periph::GCLK;
use samd_hal::periph::MCLK;
use samd_hal::periph::NVMCTRL;
use samd_hal::periph::OSC32KCTRL;
use samd_hal::periph::OSCCTRL;
use samd_hal::time::Nanoseconds;
use samd_hal::timer::TimerCounter;
use samd_hal::timer::TimerParams;
use samd_hal::timer::TC2;
use samd_hal::timer::TC4;

fn fresh_clocks() -> (GenericClockController, MCLK) {
    let mut mclk = MCLK::new();
    let mut osc32kctrl = OSC32KCTRL::new(1);
    let mut oscctrl = OSCCTRL::new(1);
    let mut nvmctrl = NVMCTRL::new();
    let clocks = GenericClockController::with_internal_32kosc(
        GCLK::new(1),
        &mut mclk,
        &mut osc32kctrl,
        &mut oscctrl,
        &mut nvmctrl,
    );
    (clocks, mclk)
}

#[test]
fn timer_params_pick_the_smallest_sufficient_divider() {
    // 120 MHz source, 1 ms timeout: 120000 ticks, needing divider 2.
    let p = TimerParams::new_us(Nanoseconds(1_000_000), 120_000_000);
    assert_eq!(p.divider, 2);
    assert_eq!(p.cycles, 60_000);

    // 48 MHz source, 1 us timeout: 48 ticks fit directly.
    let p = TimerParams::new_us(Nanoseconds(1_000), 48_000_000);
    assert_eq!(p.divider, 1);
    assert_eq!(p.cycles, 48);

    // 120 MHz source, 500 ms timeout: 60 million ticks, divider 1024.
    let p = TimerParams::new_us(Nanoseconds(500_000_000), 120_000_000);
    assert_eq!(p.divider, 1024);
    assert_eq!(p.cycles, 58_593);
}

#[test]
fn start_programs_period_and_prescaler() {
    let (mut clocks, mut mclk) = fresh_clocks();
    let generator = clocks.gclk0();
    let clock = clocks.tc2_tc3(&generator).unwrap();
    let mut timer = TimerCounter::tc2_(&clock, TC2::new(1), &mut mclk);
    assert!(mclk.apbb_tc2);
    assert_eq!(timer.freq().0, 120_000_000);

    timer.start(Nanoseconds(1_000_000));
    assert!(timer.is_enabled());
    assert_eq!(timer.cc0(), 60_000);
    // Divider 2 encodes as prescaler code 1.
    assert_eq!(timer.prescaler_bits(), 1);
}

#[test]
fn wait_blocks_until_the_overflow_flag_rises() {
    let (mut clocks, mut mclk) = fresh_clocks();
    let generator = clocks.gclk0();
    let clock = clocks.tc2_tc3(&generator).unwrap();
    let mut timer = TimerCounter::tc2_(&clock, TC2::new(0), &mut mclk);
    timer.start(Nanoseconds(10_000));

    // The period has not elapsed yet.
    assert!(timer.wait().is_err());

    // The hardware raises the overflow flag at the period boundary.
    timer.hw_raise_irq(true, false, false, false);
    assert!(timer.wait().is_ok());

    // The flag was cleared by the successful wait.
    assert!(timer.wait().is_err());
}

#[test]
fn tc4_interrupt_flags_clear_individually() {
    let (mut clocks, mut mclk) = fresh_clocks();
    let generator = clocks.gclk0();
    let clock = clocks.tc4_tc5(&generator).unwrap();
    let mut timer = TimerCounter::tc4_(&clock, TC4::new(2), &mut mclk);
    assert!(mclk.apbc_tc4);

    timer.hw_raise_irq(true, true, true, true);
    assert!(timer.is_ovf_int_flag_set());
    assert!(timer.is_err_int_flag_set());
    assert!(timer.is_mc0_int_flag_set());
    assert!(timer.is_mc1_int_flag_set());

    timer.clear_ovf_irq();
    assert!(!timer.is_ovf_int_flag_set());
    assert!(timer.is_err_int_flag_set());

    timer.clear_err_irq();
    timer.clear_mc0_irq();
    timer.clear_mc1_irq();
    assert!(!timer.is_err_int_flag_set());
    assert!(!timer.is_mc0_int_flag_set());
    assert!(!timer.is_mc1_int_flag_set());
}

#[test]
fn tc4_clear_all_clears_every_flag() {
    let (mut clocks, mut mclk) = fresh_clocks();
    let generator = clocks.gclk0();
    let clock = clocks.tc4_tc5(&generator).unwrap();
    let mut timer = TimerCounter::tc4_(&clock, TC4::new(0), &mut mclk);

    timer.hw_raise_irq(true, true, false, true);
    timer.clear_all_irq();
    assert!(!timer.is_ovf_int_flag_set());
    assert!(!timer.is_err_int_flag_set());
    assert!(!timer.is_mc0_int_flag_set());
    assert!(!timer.is_mc1_int_flag_set());
}

#[test]
fn interrupt_enable_is_a_peripheral_level_switch() {
    let (mut clocks, mut mclk) = fresh_clocks();
    let generator = clocks.gclk0();
    let clock = clocks.tc2_tc3(&generator).unwrap();
    let mut timer = TimerCounter::tc2_(&clock, TC2::new(0), &mut mclk);
    timer.enable_interrupt();
    timer.disable_interrupt();
}
