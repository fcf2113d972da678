//! The `LC` register: late collisions count.
//!
//! The register follows the reader/writer idiom of generated peripheral
//! access code: `R` is a read snapshot whose field methods decode one
//! field each into a field-reader value, and `W` is a register value
//! under construction whose field methods hand back a one-field writer
//! proxy. The proxy places the field's bits and returns the updated `W`,
//! so field writes chain.

use vstd::prelude::*;

verus! {

/// The decoded value of the single-bit field at `shift`.
pub open spec fn spec_get_bit(bits: u32, shift: u32) -> bool {
    (bits >> shift) & 0x01 != 0
}

/// Register `LC` reader.
pub struct R {
    bits: u32,
}

impl R {
    /// The captured register value, as seen by specifications.
    pub closed spec fn spec_bits(&self) -> u32 {
        self.bits
    }

    /// Capture a register snapshot from raw bits.
    pub fn new(bits: u32) -> (r: R)
        ensures
            r.spec_bits() == bits,
    {
        R { bits }
    }

    /// The raw register value.
    pub fn bits(&self) -> (r: u32)
        ensures
            r == self.spec_bits(),
    {
        self.bits
    }

    /// Bits 0:9 - Late Collisions
    pub fn lcol(&self) -> (r: LCOL_R)
        ensures
            r.spec_bits() == (self.spec_bits() & 0x03ff) as u16,
    {
        LCOL_R::new((self.bits & 0x03ff) as u16)
    }
}

/// Field `LCOL` reader - Late Collisions
pub struct LCOL_R {
    bits: u16,
}

impl LCOL_R {
    /// The decoded field, as seen by specifications.
    pub closed spec fn spec_bits(&self) -> u16 {
        self.bits
    }

    pub fn new(bits: u16) -> (r: LCOL_R)
        ensures
            r.spec_bits() == bits,
    {
        LCOL_R { bits }
    }

    /// The raw field value.
    pub fn bits(&self) -> (r: u16)
        ensures
            r == self.spec_bits(),
    {
        self.bits
    }
}

/// late collisions count.
///
/// Marker for the register's layout; its reset value is 0.
pub struct LC_SPEC;

impl LC_SPEC {
    /// The value the register holds after reset.
    pub fn reset_value() -> (r: u32)
        ensures
            r == 0,
    {
        0
    }
}

} // verus!
