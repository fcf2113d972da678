//! The `COUNT_DITH4` register: counter value with four dithering bits.
//!
//! The register follows the reader/writer idiom of generated peripheral
//! access code: `R` is a read snapshot whose field methods decode one
//! field each into a field-reader value, and `W` is a register value
//! under construction whose field methods hand back a one-field writer
//! proxy. The proxy places the field's bits and returns the updated `W`,
//! so field writes chain.

use vstd::prelude::*;

verus! {

/// The decoded value of the single-bit field at `shift`.
pub open spec fn spec_get_bit(bits: u32, shift: u32) -> bool {
    (bits >> shift) & 0x01 != 0
}

/// Register `COUNT_DITH4` reader.
pub struct R {
    bits: u32,
}

impl R {
    /// The captured register value, as seen by specifications.
    pub closed spec fn spec_bits(&self) -> u32 {
        self.bits
    }

    /// Capture a register snapshot from raw bits.
    pub fn new(bits: u32) -> (r: R)
        ensures
            r.spec_bits() == bits,
    {
        R { bits }
    }

    /// The raw register value.
    pub fn bits(&self) -> (r: u32)
        ensures
            r == self.spec_bits(),
    {
        self.bits
    }

    /// Bits 4:23 - Counter Value
    pub fn count(&self) -> (r: COUNT_R)
        ensures
            r.spec_bits() == ((self.spec_bits() >> 4) & 0x000f_ffff) as u32,
    {
        COUNT_R::new((self.bits >> 4) & 0x000f_ffff)
    }
}

/// Register `COUNT_DITH4` writer.
pub struct W {
    bits: u32,
}

impl W {
    /// The register value being built, as seen by specifications.
    pub closed spec fn spec_bits(&self) -> u32 {
        self.bits
    }

    /// Begin a write from raw bits.
    pub fn new(bits: u32) -> (r: W)
        ensures
            r.spec_bits() == bits,
    {
        W { bits }
    }

    /// The raw value the write would carry.
    pub fn bits(&self) -> (r: u32)
        ensures
            r == self.spec_bits(),
    {
        self.bits
    }

    /// Bits 4:23 - Counter Value
    pub fn count(self) -> (r: COUNT_W)
        ensures
            r.spec_w() == self,
    {
        COUNT_W { w: self }
    }
}

/// Field `COUNT` reader - Counter Value
pub struct COUNT_R {
    bits: u32,
}

impl COUNT_R {
    /// The decoded field, as seen by specifications.
    pub closed spec fn spec_bits(&self) -> u32 {
        self.bits
    }

    pub fn new(bits: u32) -> (r: COUNT_R)
        ensures
            r.spec_bits() == bits,
    {
        COUNT_R { bits }
    }

    /// The raw field value.
    pub fn bits(&self) -> (r: u32)
        ensures
            r == self.spec_bits(),
    {
        self.bits
    }
}

/// Field `COUNT` writer - Counter Value
pub struct COUNT_W {
    w: W,
}

impl COUNT_W {
    /// The write being built, as seen by specifications.
    pub closed spec fn spec_w(&self) -> W {
        self.w
    }

    /// Writes raw bits to the field: the twenty counter bits land at
    /// offset four, and every other bit is kept.
    pub fn bits(self, value: u32) -> (r: W)
        ensures
            r.spec_bits() == (self.spec_w().spec_bits() & !(0x000f_ffffu32 << 4)) | ((value
                & 0x000f_ffff) << 4),
    {
        W { bits: (self.w.bits & !(0x000f_ffffu32 << 4)) | ((value & 0x000f_ffff) << 4) }
    }
}

/// Writing the counter field and reading it back yields the low twenty
/// bits of the value written.
pub proof fn lemma_count_round_trip(bits: u32, value: u32)
    by (bit_vector)
    ensures
        ((((bits & !(0x000f_ffffu32 << 4)) | ((value & 0x000f_ffff) << 4)) >> 4) & 0x000f_ffff)
            == (value & 0x000f_ffff),
{
}

/// counter value with four dithering bits.
///
/// Marker for the register's layout; its reset value is 0.
pub struct COUNT_DITH4_SPEC;

impl COUNT_DITH4_SPEC {
    /// The value the register holds after reset.
    pub fn reset_value() -> (r: u32)
        ensures
            r == 0,
    {
        0
    }
}

} // verus!
