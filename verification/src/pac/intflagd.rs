//! The `INTFLAGD` register: peripheral interrupt flag status - bridge D.
//!
//! The register follows the reader/writer idiom of generated peripheral
//! access code: `R` is a read snapshot whose field methods decode one
//! field each into a field-reader value, and `W` is a register value
//! under construction whose field methods hand back a one-field writer
//! proxy. The proxy places the field's bits and returns the updated `W`,
//! so field writes chain.

use vstd::prelude::*;

verus! {

/// The decoded value of the single-bit field at `shift`.
pub open spec fn spec_get_bit(bits: u32, shift: u32) -> bool {
    (bits >> shift) & 0x01 != 0
}

/// The register value with the single-bit field at `shift` set to
/// `value` and every other bit kept.
pub open spec fn spec_set_bit(bits: u32, shift: u32, value: bool) -> u32 {
    (bits & !((0x01 as u32) << shift)) | (((value as u32) & 0x01) << shift)
}

/// Writing a single-bit field and reading it back yields the value
/// written, and any other bit position is untouched.
pub proof fn lemma_bit_field_isolation(bits: u32, shift: u32, other: u32, value: bool)
    by (bit_vector)
    requires
        shift < 32,
        other < 32,
        other != shift,
    ensures
        spec_get_bit(spec_set_bit(bits, shift, value), shift) == value,
        spec_get_bit(spec_set_bit(bits, shift, value), other) == spec_get_bit(bits, other),
{
}

/// Register `INTFLAGD` reader.
pub struct R {
    bits: u32,
}

impl R {
    /// The captured register value, as seen by specifications.
    pub closed spec fn spec_bits(&self) -> u32 {
        self.bits
    }

    /// Capture a register snapshot from raw bits.
    pub fn new(bits: u32) -> (r: R)
        ensures
            r.spec_bits() == bits,
    {
        R { bits }
    }

    /// The raw register value.
    pub fn bits(&self) -> (r: u32)
        ensures
            r == self.spec_bits(),
    {
        self.bits
    }

    /// Bit 0 - SERCOM4
    pub fn sercom4_(&self) -> (r: SERCOM4__R)
        ensures
            r.spec_bit() == spec_get_bit(self.spec_bits(), 0),
    {
        SERCOM4__R::new((self.bits >> 0) & 0x01 != 0)
    }

    /// Bit 1 - SERCOM5
    pub fn sercom5_(&self) -> (r: SERCOM5__R)
        ensures
            r.spec_bit() == spec_get_bit(self.spec_bits(), 1),
    {
        SERCOM5__R::new((self.bits >> 1) & 0x01 != 0)
    }

    /// Bit 7 - ADC0
    pub fn adc0_(&self) -> (r: ADC0__R)
        ensures
            r.spec_bit() == spec_get_bit(self.spec_bits(), 7),
    {
        ADC0__R::new((self.bits >> 7) & 0x01 != 0)
    }

    /// Bit 8 - ADC1
    pub fn adc1_(&self) -> (r: ADC1__R)
        ensures
            r.spec_bit() == spec_get_bit(self.spec_bits(), 8),
    {
        ADC1__R::new((self.bits >> 8) & 0x01 != 0)
    }

    /// Bit 9 - DAC
    pub fn dac_(&self) -> (r: DAC__R)
        ensures
            r.spec_bit() == spec_get_bit(self.spec_bits(), 9),
    {
        DAC__R::new((self.bits >> 9) & 0x01 != 0)
    }

    /// Bit 11 - PCC
    pub fn pcc_(&self) -> (r: PCC__R)
        ensures
            r.spec_bit() == spec_get_bit(self.spec_bits(), 11),
    {
        PCC__R::new((self.bits >> 11) & 0x01 != 0)
    }
}

/// Register `INTFLAGD` writer.
pub struct W {
    bits: u32,
}

impl W {
    /// The register value being built, as seen by specifications.
    pub closed spec fn spec_bits(&self) -> u32 {
        self.bits
    }

    /// Begin a write from raw bits.
    pub fn new(bits: u32) -> (r: W)
        ensures
            r.spec_bits() == bits,
    {
        W { bits }
    }

    /// The raw value the write would carry.
    pub fn bits(&self) -> (r: u32)
        ensures
            r == self.spec_bits(),
    {
        self.bits
    }

    /// Bit 0 - SERCOM4
    pub fn sercom4_(self) -> (r: SERCOM4__W)
        ensures
            r.spec_w() == self,
    {
        SERCOM4__W { w: self }
    }

    /// Bit 1 - SERCOM5
    pub fn sercom5_(self) -> (r: SERCOM5__W)
        ensures
            r.spec_w() == self,
    {
        SERCOM5__W { w: self }
    }

    /// Bit 7 - ADC0
    pub fn adc0_(self) -> (r: ADC0__W)
        ensures
            r.spec_w() == self,
    {
        ADC0__W { w: self }
    }

    /// Bit 8 - ADC1
    pub fn adc1_(self) -> (r: ADC1__W)
        ensures
            r.spec_w() == self,
    {
        ADC1__W { w: self }
    }

    /// Bit 9 - DAC
    pub fn dac_(self) -> (r: DAC__W)
        ensures
            r.spec_w() == self,
    {
        DAC__W { w: self }
    }

    /// Bit 11 - PCC
    pub fn pcc_(self) -> (r: PCC__W)
        ensures
            r.spec_w() == self,
    {
        PCC__W { w: self }
    }
}

/// Field `SERCOM4_` reader - SERCOM4
pub struct SERCOM4__R {
    bits: bool,
}

impl SERCOM4__R {
    /// The decoded field, as seen by specifications.
    pub closed spec fn spec_bit(&self) -> bool {
        self.bits
    }

    pub fn new(bits: bool) -> (r: SERCOM4__R)
        ensures
            r.spec_bit() == bits,
    {
        SERCOM4__R { bits }
    }

    /// The raw field bit.
    pub fn bit(&self) -> (r: bool)
        ensures
            r == self.spec_bit(),
    {
        self.bits
    }

    /// Whether the field bit is set.
    pub fn bit_is_set(&self) -> (r: bool)
        ensures
            r == self.spec_bit(),
    {
        self.bits
    }

    /// Whether the field bit is clear.
    pub fn bit_is_clear(&self) -> (r: bool)
        ensures
            r == !self.spec_bit(),
    {
        !self.bits
    }
}

/// Field `SERCOM4_` writer - SERCOM4
pub struct SERCOM4__W {
    w: W,
}

impl SERCOM4__W {
    /// The write being built, as seen by specifications.
    pub closed spec fn spec_w(&self) -> W {
        self.w
    }

    /// Sets the field bit.
    pub fn set_bit(self) -> (r: W)
        ensures
            r.spec_bits() == spec_set_bit(self.spec_w().spec_bits(), 0, true),
    {
        self.bit(true)
    }

    /// Clears the field bit.
    pub fn clear_bit(self) -> (r: W)
        ensures
            r.spec_bits() == spec_set_bit(self.spec_w().spec_bits(), 0, false),
    {
        self.bit(false)
    }

    /// Writes a raw bit to the field.
    pub fn bit(self, value: bool) -> (r: W)
        ensures
            r.spec_bits() == spec_set_bit(self.spec_w().spec_bits(), 0, value),
    {
        W { bits: (self.w.bits & !((0x01 as u32) << 0)) | (((value as u32) & 0x01) << 0) }
    }
}

/// Field `SERCOM5_` reader - SERCOM5
pub struct SERCOM5__R {
    bits: bool,
}

impl SERCOM5__R {
    /// The decoded field, as seen by specifications.
    pub closed spec fn spec_bit(&self) -> bool {
        self.bits
    }

    pub fn new(bits: bool) -> (r: SERCOM5__R)
        ensures
            r.spec_bit() == bits,
    {
        SERCOM5__R { bits }
    }

    /// The raw field bit.
    pub fn bit(&self) -> (r: bool)
        ensures
            r == self.spec_bit(),
    {
        self.bits
    }

    /// Whether the field bit is set.
    pub fn bit_is_set(&self) -> (r: bool)
        ensures
            r == self.spec_bit(),
    {
        self.bits
    }

    /// Whether the field bit is clear.
    pub fn bit_is_clear(&self) -> (r: bool)
        ensures
            r == !self.spec_bit(),
    {
        !self.bits
    }
}

/// Field `SERCOM5_` writer - SERCOM5
pub struct SERCOM5__W {
    w: W,
}

impl SERCOM5__W {
    /// The write being built, as seen by specifications.
    pub closed spec fn spec_w(&self) -> W {
        self.w
    }

    /// Sets the field bit.
    pub fn set_bit(self) -> (r: W)
        ensures
            r.spec_bits() == spec_set_bit(self.spec_w().spec_bits(), 1, true),
    {
        self.bit(true)
    }

    /// Clears the field bit.
    pub fn clear_bit(self) -> (r: W)
        ensures
            r.spec_bits() == spec_set_bit(self.spec_w().spec_bits(), 1, false),
    {
        self.bit(false)
    }

    /// Writes a raw bit to the field.
    pub fn bit(self, value: bool) -> (r: W)
        ensures
            r.spec_bits() == spec_set_bit(self.spec_w().spec_bits(), 1, value),
    {
        W { bits: (self.w.bits & !((0x01 as u32) << 1)) | (((value as u32) & 0x01) << 1) }
    }
}

/// Field `ADC0_` reader - ADC0
pub struct ADC0__R {
    bits: bool,
}

impl ADC0__R {
    /// The decoded field, as seen by specifications.
    pub closed spec fn spec_bit(&self) -> bool {
        self.bits
    }

    pub fn new(bits: bool) -> (r: ADC0__R)
        ensures
            r.spec_bit() == bits,
    {
        ADC0__R { bits }
    }

    /// The raw field bit.
    pub fn bit(&self) -> (r: bool)
        ensures
            r == self.spec_bit(),
    {
        self.bits
    }

    /// Whether the field bit is set.
    pub fn bit_is_set(&self) -> (r: bool)
        ensures
            r == self.spec_bit(),
    {
        self.bits
    }

    /// Whether the field bit is clear.
    pub fn bit_is_clear(&self) -> (r: bool)
        ensures
            r == !self.spec_bit(),
    {
        !self.bits
    }
}

/// Field `ADC0_` writer - ADC0
pub struct ADC0__W {
    w: W,
}

impl ADC0__W {
    /// The write being built, as seen by specifications.
    pub closed spec fn spec_w(&self) -> W {
        self.w
    }

    /// Sets the field bit.
    pub fn set_bit(self) -> (r: W)
        ensures
            r.spec_bits() == spec_set_bit(self.spec_w().spec_bits(), 7, true),
    {
        self.bit(true)
    }

    /// Clears the field bit.
    pub fn clear_bit(self) -> (r: W)
        ensures
            r.spec_bits() == spec_set_bit(self.spec_w().spec_bits(), 7, false),
    {
        self.bit(false)
    }

    /// Writes a raw bit to the field.
    pub fn bit(self, value: bool) -> (r: W)
        ensures
            r.spec_bits() == spec_set_bit(self.spec_w().spec_bits(), 7, value),
    {
        W { bits: (self.w.bits & !((0x01 as u32) << 7)) | (((value as u32) & 0x01) << 7) }
    }
}

/// Field `ADC1_` reader - ADC1
pub struct ADC1__R {
    bits: bool,
}

impl ADC1__R {
    /// The decoded field, as seen by specifications.
    pub closed spec fn spec_bit(&self) -> bool {
        self.bits
    }

    pub fn new(bits: bool) -> (r: ADC1__R)
        ensures
            r.spec_bit() == bits,
    {
        ADC1__R { bits }
    }

    /// The raw field bit.
    pub fn bit(&self) -> (r: bool)
        ensures
            r == self.spec_bit(),
    {
        self.bits
    }

    /// Whether the field bit is set.
    pub fn bit_is_set(&self) -> (r: bool)
        ensures
            r == self.spec_bit(),
    {
        self.bits
    }

    /// Whether the field bit is clear.
    pub fn bit_is_clear(&self) -> (r: bool)
        ensures
            r == !self.spec_bit(),
    {
        !self.bits
    }
}

/// Field `ADC1_` writer - ADC1
pub struct ADC1__W {
    w: W,
}

impl ADC1__W {
    /// The write being built, as seen by specifications.
    pub closed spec fn spec_w(&self) -> W {
        self.w
    }

    /// Sets the field bit.
    pub fn set_bit(self) -> (r: W)
        ensures
            r.spec_bits() == spec_set_bit(self.spec_w().spec_bits(), 8, true),
    {
        self.bit(true)
    }

    /// Clears the field bit.
    pub fn clear_bit(self) -> (r: W)
        ensures
            r.spec_bits() == spec_set_bit(self.spec_w().spec_bits(), 8, false),
    {
        self.bit(false)
    }

    /// Writes a raw bit to the field.
    pub fn bit(self, value: bool) -> (r: W)
        ensures
            r.spec_bits() == spec_set_bit(self.spec_w().spec_bits(), 8, value),
    {
        W { bits: (self.w.bits & !((0x01 as u32) << 8)) | (((value as u32) & 0x01) << 8) }
    }
}

/// Field `DAC_` reader - DAC
pub struct DAC__R {
    bits: bool,
}

impl DAC__R {
    /// The decoded field, as seen by specifications.
    pub closed spec fn spec_bit(&self) -> bool {
        self.bits
    }

    pub fn new(bits: bool) -> (r: DAC__R)
        ensures
            r.spec_bit() == bits,
    {
        DAC__R { bits }
    }

    /// The raw field bit.
    pub fn bit(&self) -> (r: bool)
        ensures
            r == self.spec_bit(),
    {
        self.bits
    }

    /// Whether the field bit is set.
    pub fn bit_is_set(&self) -> (r: bool)
        ensures
            r == self.spec_bit(),
    {
        self.bits
    }

    /// Whether the field bit is clear.
    pub fn bit_is_clear(&self) -> (r: bool)
        ensures
            r == !self.spec_bit(),
    {
        !self.bits
    }
}

/// Field `DAC_` writer - DAC
pub struct DAC__W {
    w: W,
}

impl DAC__W {
    /// The write being built, as seen by specifications.
    pub closed spec fn spec_w(&self) -> W {
        self.w
    }

    /// Sets the field bit.
    pub fn set_bit(self) -> (r: W)
        ensures
            r.spec_bits() == spec_set_bit(self.spec_w().spec_bits(), 9, true),
    {
        self.bit(true)
    }

    /// Clears the field bit.
    pub fn clear_bit(self) -> (r: W)
        ensures
            r.spec_bits() == spec_set_bit(self.spec_w().spec_bits(), 9, false),
    {
        self.bit(false)
    }

    /// Writes a raw bit to the field.
    pub fn bit(self, value: bool) -> (r: W)
        ensures
            r.spec_bits() == spec_set_bit(self.spec_w().spec_bits(), 9, value),
    {
        W { bits: (self.w.bits & !((0x01 as u32) << 9)) | (((value as u32) & 0x01) << 9) }
    }
}

/// Field `PCC_` reader - PCC
pub struct PCC__R {
    bits: bool,
}

impl PCC__R {
    /// The decoded field, as seen by specifications.
    pub closed spec fn spec_bit(&self) -> bool {
        self.bits
    }

    pub fn new(bits: bool) -> (r: PCC__R)
        ensures
            r.spec_bit() == bits,
    {
        PCC__R { bits }
    }

    /// The raw field bit.
    pub fn bit(&self) -> (r: bool)
        ensures
            r == self.spec_bit(),
    {
        self.bits
    }

    /// Whether the field bit is set.
    pub fn bit_is_set(&self) -> (r: bool)
        ensures
            r == self.spec_bit(),
    {
        self.bits
    }

    /// Whether the field bit is clear.
    pub fn bit_is_clear(&self) -> (r: bool)
        ensures
            r == !self.spec_bit(),
    {
        !self.bits
    }
}

/// Field `PCC_` writer - PCC
pub struct PCC__W {
    w: W,
}

impl PCC__W {
    /// The write being built, as seen by specifications.
    pub closed spec fn spec_w(&self) -> W {
        self.w
    }

    /// Sets the field bit.
    pub fn set_bit(self) -> (r: W)
        ensures
            r.spec_bits() == spec_set_bit(self.spec_w().spec_bits(), 11, true),
    {
        self.bit(true)
    }

    /// Clears the field bit.
    pub fn clear_bit(self) -> (r: W)
        ensures
            r.spec_bits() == spec_set_bit(self.spec_w().spec_bits(), 11, false),
    {
        self.bit(false)
    }

    /// Writes a raw bit to the field.
    pub fn bit(self, value: bool) -> (r: W)
        ensures
            r.spec_bits() == spec_set_bit(self.spec_w().spec_bits(), 11, value),
    {
        W { bits: (self.w.bits & !((0x01 as u32) << 11)) | (((value as u32) & 0x01) << 11) }
    }
}

/// peripheral interrupt flag status - bridge D.
///
/// Marker for the register's layout; its reset value is 0.
pub struct INTFLAGD_SPEC;

impl INTFLAGD_SPEC {
    /// The value the register holds after reset.
    pub fn reset_value() -> (r: u32)
        ensures
            r == 0,
    {
        0
    }
}

} // verus!
