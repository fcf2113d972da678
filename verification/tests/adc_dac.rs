//! Tests for the analogue converters: one-shot and interrupt-driven
//! analogue-to-digital reads, and digital-to-analogue conversions.

use samd_hal::adc::Adc;
use samd_hal::adc::InterruptAdc;
use samd_hal::adc::Prescaler;
use samd_hal::adc::Resolution;
use samd_hal::adc::SampleRate;
use samd_hal::adc::SingleConversion;
use samd_hal::adc::ADC0;
use samd_hal::adc::ADC1;
use samd_hal::clock::ClockGenId;
use samd_hal::clock::GenericClockController;
use samd_hal::dac::Dac;
use samd_hal::dac::DAC;
use samd_hal::periph::GCLK;
use samd_hal::periph::MCLK;
use samd_hal::periph::NVMCTRL;
use samd_hal::periph::OSC32KCTRL;
use samd_hal::periph::OSCCTRL;

fn fresh_clocks() -> (GenericClockController, MCLK) {
    let mut mclk = MCLK::new();
    let mut osc32kctrl = OSC32KCTRL::new(1);
    let mut oscctrl = OSCCTRL::new(1);
    let mut nvmctrl = NVMCTRL::new();
    let clocks = GenericClockController::with_internal_32kosc(
        GCLK::new(1),
        &mut mclk,
        &mut osc32kctrl,
        &mut oscctrl,
        &mut nvmctrl,
    );
    (clocks, mclk)
}

#[test]
fn adc0_one_shot_read_returns_the_hardware_result() {
    let (mut clocks, mut mclk) = fresh_clocks();
    let mut adc = Adc::adc0(ADC0::new(1), &mut mclk, &mut clocks, ClockGenId::GCLK2);
    assert!(mclk.apbd_adc0);

    adc.hw_set_result(1234);
    assert_eq!(adc.read(3), 1234);
}

#[test]
fn adc1_configuration_methods() {
    let (mut clocks, mut mclk) = fresh_clocks();
    let mut adc = Adc::adc1(ADC1::new(0), &mut mclk, &mut clocks, ClockGenId::GCLK3);
    assert!(mclk.apbd_adc1);

    adc.samples(SampleRate::_16);
    adc.prescaler(Prescaler::DIV8);
    adc.resolution(Resolution::_8BIT);
    adc.hw_set_result(77);
    assert_eq!(adc.read(0), 77);
}

#[test]
fn interrupt_driven_single_conversion() {
    let (mut clocks, mut mclk) = fresh_clocks();
    let adc = Adc::adc0(ADC0::new(0), &mut mclk, &mut clocks, ClockGenId::GCLK2);
    let mut iadc: InterruptAdc<ADC0, SingleConversion> = InterruptAdc::from(adc);

    iadc.start_conversion(5);
    // The settling delay is zero, so the result is ready at once.
    let res = iadc.service_interrupt_ready();
    assert!(res.is_some());

    // With the conversion finalized, no further result is pending.
    assert!(iadc.service_interrupt_ready().is_none());
    iadc.stop_conversion();
}

#[test]
fn both_adc_clock_channels_claim_independently() {
    let (mut clocks, mut mclk) = fresh_clocks();
    let _adc0 = Adc::adc0(ADC0::new(0), &mut mclk, &mut clocks, ClockGenId::GCLK2);
    let _adc1 = Adc::adc1(ADC1::new(0), &mut mclk, &mut clocks, ClockGenId::GCLK3);
    assert!(mclk.apbd_adc0);
    assert!(mclk.apbd_adc1);
}

#[test]
fn dac_converts_a_sample_per_unit() {
    let (mut clocks, mut mclk) = fresh_clocks();
    let (dac, dac0, dac1) = Dac::init(&mut mclk, DAC::new(1), &mut clocks);
    assert!(mclk.apbd_dac);
    assert!(!dac.is_enabled());

    let mut dac = dac.enable_dac_controller();
    assert!(dac.is_enabled());

    let dac0 = dac0.wait_ready(&mut dac);
    let _dac0 = dac0.start_conversion(&mut dac, 2048);
    assert_eq!(dac.unit_data(0), 2048);

    let _dac1 = dac1.start_conversion(&mut dac, 4095);
    assert_eq!(dac.unit_data(1), 4095);
    assert_eq!(dac.unit_data(0), 2048);
}

#[test]
fn dac_interrupt_enables_are_register_level() {
    let (mut clocks, mut mclk) = fresh_clocks();
    let (dac, _dac0, _dac1) = Dac::init(&mut mclk, DAC::new(0), &mut clocks);
    let dac = dac.enable_dac_controller();
    let dac = dac.enable_dac_interrupts();
    assert!(dac.is_enabled());
}
