//! Hardware abstraction layer for a Cortex-M microcontroller family,
//! centred on the DMA channel state machine and its register-port model.
//!
//! The library models each peripheral's control, status and interrupt
//! registers as plain data, including the synchronization delay that real
//! hardware exhibits between a register write and its observable effect.
//! Every operation carries a contract describing exactly which registers it
//! reads and writes, and the busy-wait loops are proved to terminate against
//! the synchronization model.

use vstd::prelude::*;

pub mod adc;
pub mod clock;
pub mod dac;
pub mod dmac;
pub mod length;
pub mod pac;
pub mod periph;
pub mod port;
pub mod time;
pub mod timer;

verus! {

/// Number of DMA channels exposed by the controller model.
pub const CHAN_COUNT: u8 = 4;

} // verus!
