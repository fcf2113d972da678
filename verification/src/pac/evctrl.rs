//! The `EVCTRL` register: event control.
//!
//! The register follows the reader/writer idiom of generated peripheral
//! access code: `R` is a read snapshot whose field methods decode one
//! field each into a field-reader value, and `W` is a register value
//! under construction whose field methods hand back a one-field writer
//! proxy. The proxy places the field's bits and returns the updated `W`,
//! so field writes chain.

use vstd::prelude::*;

verus! {

/// The decoded value of the single-bit field at `shift`.
pub open spec fn spec_get_bit(bits: u8, shift: u8) -> bool {
    (bits >> shift) & 0x01 != 0
}

/// The register value with the single-bit field at `shift` set to
/// `value` and every other bit kept.
pub open spec fn spec_set_bit(bits: u8, shift: u8, value: bool) -> u8 {
    (bits & !((0x01 as u8) << shift)) | (((value as u8) & 0x01) << shift)
}

/// Writing a single-bit field and reading it back yields the value
/// written, and any other bit position is untouched.
pub proof fn lemma_bit_field_isolation(bits: u8, shift: u8, other: u8, value: bool)
    by (bit_vector)
    requires
        shift < 8,
        other < 8,
        other != shift,
    ensures
        spec_get_bit(spec_set_bit(bits, shift, value), shift) == value,
        spec_get_bit(spec_set_bit(bits, shift, value), other) == spec_get_bit(bits, other),
{
}

/// Register `EVCTRL` reader.
pub struct R {
    bits: u8,
}

impl R {
    /// The captured register value, as seen by specifications.
    pub closed spec fn spec_bits(&self) -> u8 {
        self.bits
    }

    /// Capture a register snapshot from raw bits.
    pub fn new(bits: u8) -> (r: R)
        ensures
            r.spec_bits() == bits,
    {
        R { bits }
    }

    /// The raw register value.
    pub fn bits(&self) -> (r: u8)
        ensures
            r == self.spec_bits(),
    {
        self.bits
    }

    /// Bit 0 - Peripheral access error event output
    pub fn erreo(&self) -> (r: ERREO_R)
        ensures
            r.spec_bit() == spec_get_bit(self.spec_bits(), 0),
    {
        ERREO_R::new((self.bits >> 0) & 0x01 != 0)
    }
}

/// Register `EVCTRL` writer.
pub struct W {
    bits: u8,
}

impl W {
    /// The register value being built, as seen by specifications.
    pub closed spec fn spec_bits(&self) -> u8 {
        self.bits
    }

    /// Begin a write from raw bits.
    pub fn new(bits: u8) -> (r: W)
        ensures
            r.spec_bits() == bits,
    {
        W { bits }
    }

    /// The raw value the write would carry.
    pub fn bits(&self) -> (r: u8)
        ensures
            r == self.spec_bits(),
    {
        self.bits
    }

    /// Bit 0 - Peripheral access error event output
    pub fn erreo(self) -> (r: ERREO_W)
        ensures
            r.spec_w() == self,
    {
        ERREO_W { w: self }
    }
}

/// Field `ERREO` reader - Peripheral access error event output
pub struct ERREO_R {
    bits: bool,
}

impl ERREO_R {
    /// The decoded field, as seen by specifications.
    pub closed spec fn spec_bit(&self) -> bool {
        self.bits
    }

    pub fn new(bits: bool) -> (r: ERREO_R)
        ensures
            r.spec_bit() == bits,
    {
        ERREO_R { bits }
    }

    /// The raw field bit.
    pub fn bit(&self) -> (r: bool)
        ensures
            r == self.spec_bit(),
    {
        self.bits
    }

    /// Whether the field bit is set.
    pub fn bit_is_set(&self) -> (r: bool)
        ensures
            r == self.spec_bit(),
    {
        self.bits
    }

    /// Whether the field bit is clear.
    pub fn bit_is_clear(&self) -> (r: bool)
        ensures
            r == !self.spec_bit(),
    {
        !self.bits
    }
}

/// Field `ERREO` writer - Peripheral access error event output
pub struct ERREO_W {
    w: W,
}

impl ERREO_W {
    /// The write being built, as seen by specifications.
    pub closed spec fn spec_w(&self) -> W {
        self.w
    }

    /// Sets the field bit.
    pub fn set_bit(self) -> (r: W)
        ensures
            r.spec_bits() == spec_set_bit(self.spec_w().spec_bits(), 0, true),
    {
        self.bit(true)
    }

    /// Clears the field bit.
    pub fn clear_bit(self) -> (r: W)
        ensures
            r.spec_bits() == spec_set_bit(self.spec_w().spec_bits(), 0, false),
    {
        self.bit(false)
    }

    /// Writes a raw bit to the field.
    pub fn bit(self, value: bool) -> (r: W)
        ensures
            r.spec_bits() == spec_set_bit(self.spec_w().spec_bits(), 0, value),
    {
        W { bits: (self.w.bits & !((0x01 as u8) << 0)) | (((value as u8) & 0x01) << 0) }
    }
}

/// event control.
///
/// Marker for the register's layout; its reset value is 0.
pub struct EVCTRL_SPEC;

impl EVCTRL_SPEC {
    /// The value the register holds after reset.
    pub fn reset_value() -> (r: u8)
        ensures
            r == 0,
    {
        0
    }
}

} // verus!
