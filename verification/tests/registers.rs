//! Tests for the register-level reader/writer modules and the
//! transaction-length markers.

use samd_hal::length::DynLength;
use samd_hal::length::GreaterThan4;
use samd_hal::length::Length;
use samd_hal::length::StaticLength;
use samd_hal::length::U1;
use samd_hal::length::U4;
use samd_hal::length::U5;
use samd_hal::length::U8;
use samd_hal::pac::count_dith4;
use samd_hal::pac::evctrl;
use samd_hal::pac::intflagd;
use samd_hal::pac::lc;

#[test]
fn intflagd_reader_decodes_each_field() {
    // ADC1 (bit 8) and DAC (bit 9) pending.
    let r = intflagd::R::new(0x0300);
    assert!(!r.sercom4_().bit_is_set());
    assert!(!r.sercom5_().bit_is_set());
    assert!(!r.adc0_().bit_is_set());
    assert!(r.adc1_().bit_is_set());
    assert!(r.dac_().bit_is_set());
    assert!(!r.pcc_().bit_is_set());
    assert_eq!(r.bits(), 0x0300);
}

#[test]
fn intflagd_writer_places_each_field() {
    let w = intflagd::W::new(0);
    let w = w.sercom4_().set_bit();
    let w = w.adc0_().set_bit();
    let w = w.pcc_().set_bit();
    assert_eq!(w.bits(), 0x01 | 0x80 | 0x800);

    // Clearing one field leaves the others in place.
    let w = w.adc0_().clear_bit();
    assert_eq!(w.bits(), 0x01 | 0x800);

    // A valued write overrides the previous value of the field alone.
    let w = w.sercom5_().bit(true);
    let w = w.sercom4_().bit(false);
    assert_eq!(w.bits(), 0x02 | 0x800);
}

#[test]
fn evctrl_single_bit_round_trip() {
    let r = evctrl::R::new(0x01);
    assert!(r.erreo().bit_is_set());
    let r = evctrl::R::new(0x00);
    assert!(r.erreo().bit_is_clear());

    let w = evctrl::W::new(0xfe);
    let w = w.erreo().set_bit();
    assert_eq!(w.bits(), 0xff);
    let w = w.erreo().clear_bit();
    assert_eq!(w.bits(), 0xfe);
}

#[test]
fn count_dith4_field_sits_above_the_dither_bits() {
    // The twenty counter bits live at offset four.
    let r = count_dith4::R::new(0x00AB_CDE5);
    assert_eq!(r.count().bits(), 0x000A_BCDE);

    let w = count_dith4::W::new(0x0000_000F);
    let w = w.count().bits(0x000A_BCDE);
    assert_eq!(w.bits(), 0x00AB_CDEF);

    // Only the low twenty bits of the value land in the field.
    let w = count_dith4::W::new(0);
    let w = w.count().bits(0xFFF0_0001);
    assert_eq!(w.bits(), 0x0000_0010);
}

#[test]
fn lc_reader_masks_the_late_collision_count() {
    let r = lc::R::new(0xFFFF_FFFF);
    assert_eq!(r.lcol().bits(), 0x03FF);
    let r = lc::R::new(0x0000_0123);
    assert_eq!(r.lcol().bits(), 0x0123);
}

#[test]
fn reset_values_are_zero() {
    assert_eq!(intflagd::INTFLAGD_SPEC::reset_value(), 0);
    assert_eq!(evctrl::EVCTRL_SPEC::reset_value(), 0);
    assert_eq!(count_dith4::COUNT_DITH4_SPEC::reset_value(), 0);
    assert_eq!(lc::LC_SPEC::reset_value(), 0);
}

fn static_len<L: StaticLength>() -> usize {
    L::len_bytes()
}

fn long_len<L: GreaterThan4>() -> usize {
    L::len_bytes()
}

#[test]
fn transaction_lengths_report_their_byte_counts() {
    assert_eq!(DynLength::len_bytes(), 0);
    assert_eq!(static_len::<U1>(), 1);
    assert_eq!(static_len::<U4>(), 4);
    assert_eq!(long_len::<U5>(), 5);
    assert_eq!(long_len::<U8>(), 8);
}
