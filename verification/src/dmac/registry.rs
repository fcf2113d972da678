//! Shared-controller registry.
//!
//! On the target there is exactly one DMA controller, and both the main
//! execution context and the interrupt handlers must reach it. The legal
//! path is a single process-wide slot, accessed only with maskable
//! interrupts disabled. This module provides the slot itself with exact
//! contracts; arranging the critical section (masking interrupts around
//! every access, or a mutex on a hosted target) is the embedding's duty,
//! since it is an effect on the machine and not on the data.
//!
//! The slot hands its contents out by moving them: a borrow empties the
//! slot, so a re-entrant borrow finds it empty and fails visibly instead
//! of aliasing the controller.

use vstd::prelude::*;

verus! {

/// A single shared slot for the value of type `T` (the DMA controller, or
/// an in-flight transfer) that interrupt handlers and the main context
/// share under a critical section.
pub struct SharedRegistry<T> {
    slot: Option<T>,
}

impl<T> SharedRegistry<T> {
    /// The slot's contents, as seen by specifications.
    pub closed spec fn contents(&self) -> Option<T> {
        self.slot
    }

    /// An empty slot.
    pub fn new() -> (r: SharedRegistry<T>)
        ensures
            r.contents() is None,
    {
        SharedRegistry { slot: None }
    }

    /// Whether the slot currently holds a value.
    pub fn is_occupied(&self) -> (r: bool)
        ensures
            r == (self.contents() is Some),
    {
        self.slot.is_some()
    }

    /// Move `value` into the slot. The first store populates it; if the
    /// slot is already occupied nothing changes and the value is handed
    /// back.
    pub fn store(&mut self, value: T) -> (r: Result<(), T>)
        ensures
            old(self).contents() is None ==> final(self).contents() == Some(value) && r is Ok,
            old(self).contents() is Some ==> *final(self) == *old(self) && r == Result::<(), T>::Err(
                value,
            ),
    {
        if self.slot.is_some() {
            Err(value)
        } else {
            self.slot = Some(value);
            Ok(())
        }
    }

    /// Borrow the contents by moving them out, leaving the slot empty. A
    /// nested call before [`Self::restore`] finds the slot empty: the slot
    /// can never hand the same value out twice.
    pub fn take(&mut self) -> (r: Option<T>)
        ensures
            r == old(self).contents(),
            final(self).contents() is None,
    {
        self.slot.take()
    }

    /// Return previously taken contents to the slot.
    pub fn restore(&mut self, value: T) -> (r: Result<(), T>)
        ensures
            old(self).contents() is None ==> final(self).contents() == Some(value) && r is Ok,
            old(self).contents() is Some ==> *final(self) == *old(self) && r == Result::<(), T>::Err(
                value,
            ),
    {
        self.store(value)
    }
}

} // verus!
