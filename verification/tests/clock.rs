//! Tests for the clock controller: initialisation frequencies, generator
//! configuration and the once-only claim of peripheral clock channels.

use samd_hal::clock::ClockGenId;
use samd_hal::clock::ClockSource;
use samd_hal::clock::GenericClockController;
use samd_hal::periph::GCLK;
use samd_hal::periph::MCLK;
use samd_hal::periph::NVMCTRL;
use samd_hal::periph::OSC32KCTRL;
use samd_hal::periph::OSCCTRL;

fn fresh_clocks() -> GenericClockController {
    let mut mclk = MCLK::new();
    let mut osc32kctrl = OSC32KCTRL::new(2);
    let mut oscctrl = OSCCTRL::new(2);
    let mut nvmctrl = NVMCTRL::new();
    GenericClockController::with_internal_32kosc(
        GCLK::new(2),
        &mut mclk,
        &mut osc32kctrl,
        &mut oscctrl,
        &mut nvmctrl,
    )
}

#[test]
fn initial_generator_frequencies() {
    let mut clocks = fresh_clocks();
    assert_eq!(clocks.gclk0().freq().0, 120_000_000);
    assert_eq!(clocks.gclk1().freq().0, 32_768);
}

#[test]
fn external_crystal_initialisation() {
    let mut mclk = MCLK::new();
    let mut osc32kctrl = OSC32KCTRL::new(3);
    let mut oscctrl = OSCCTRL::new(3);
    let mut nvmctrl = NVMCTRL::new();
    let mut clocks = GenericClockController::with_external_32kosc(
        GCLK::new(3),
        &mut mclk,
        &mut osc32kctrl,
        &mut oscctrl,
        &mut nvmctrl,
    );
    assert_eq!(clocks.gclk0().freq().0, 120_000_000);
    assert!(osc32kctrl.xosc_enable);
    assert!(mclk.apba_gclk);
    assert_eq!(nvmctrl.rws, 7);
    assert!(oscctrl.dpll0.enable);
    assert_eq!(oscctrl.dpll0.ldr, 59);
}

#[test]
fn get_gclk_reports_only_configured_generators() {
    let mut clocks = fresh_clocks();
    // Generator 5 runs at 2 MHz for the phase-locked loop reference.
    let g5 = clocks.get_gclk(ClockGenId::GCLK5).unwrap();
    assert_eq!(g5.freq().0, 2_000_000);
    // Generator 3 has not been configured.
    assert!(clocks.get_gclk(ClockGenId::GCLK3).is_none());
}

#[test]
fn configure_generator_divides_and_claims_once() {
    let mut clocks = fresh_clocks();

    let token = clocks
        .configure_gclk_divider_and_source(ClockGenId::GCLK2, 4, ClockSource::DFLL, false)
        .unwrap();
    // The token carries the undivided source frequency.
    assert_eq!(token.freq().0, 48_000_000);
    // The recorded generator frequency is the divided one.
    let g2 = clocks.get_gclk(ClockGenId::GCLK2).unwrap();
    assert_eq!(g2.freq().0, 12_000_000);

    // A second configuration of the same generator is refused.
    assert!(
        clocks
            .configure_gclk_divider_and_source(ClockGenId::GCLK2, 2, ClockSource::DFLL, false)
            .is_none()
    );
}

#[test]
fn peripheral_clock_channels_claim_once() {
    let mut clocks = fresh_clocks();
    let generator = clocks.gclk0();

    let token = clocks.tc0_tc1(&generator).unwrap();
    assert_eq!(token.freq().0, 120_000_000);
    // The channel can only be claimed once.
    assert!(clocks.tc0_tc1(&generator).is_none());

    // Other channels are unaffected.
    let tcc = clocks.tcc0_tcc1(&generator).unwrap();
    assert_eq!(tcc.freq().0, 120_000_000);
}

#[test]
fn slow_generator_feeds_peripheral_channels() {
    let mut clocks = fresh_clocks();
    let slow = clocks.gclk1();
    let eic = clocks.eic(&slow).unwrap();
    assert_eq!(eic.freq().0, 32_768);
    let fast = clocks.gclk0();
    let usb = clocks.usb(&fast).unwrap();
    assert_eq!(usb.freq().0, 120_000_000);
}
