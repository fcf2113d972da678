//! Time units used across the clock and timer drivers.

use vstd::prelude::*;

verus! {

/// Frequency in hertz.
#[derive(Clone, Copy, PartialEq, Eq, Structural, Debug)]
pub struct Hertz(pub u32);

/// Duration in nanoseconds.
#[derive(Clone, Copy, PartialEq, Eq, Structural, Debug)]
pub struct Nanoseconds(pub u32);

} // verus!
