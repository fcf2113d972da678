//! Direct memory access: per-channel state machine, controller, transfer
//! coordination and the shared-controller registry.

pub mod channel;
pub mod controller;
pub mod registry;
pub mod transfer;
