//! The single-owner container for the handle of the supervised process.

use vstd::prelude::*;

verus! {

/// Owns at most one process handle.
///
/// The slot never inspects the handle. Ownership only moves: a handle enters
/// through [`ProcessSlot::replace`] and leaves through `replace` or
/// [`ProcessSlot::take`], so a handle that left the slot is never seen by it
/// again.
pub struct ProcessSlot<H> {
    handle: Option<H>,
}

impl<H> View for ProcessSlot<H> {
    type V = Option<H>;

    closed spec fn view(&self) -> Option<H> {
        self.handle
    }
}

impl<H> ProcessSlot<H> {
    /// An empty slot.
    pub fn new() -> (slot: Self)
        ensures
            slot@ is None,
    {
        ProcessSlot { handle: None }
    }

    /// Whether a handle is owned. The process behind it is not probed.
    pub fn is_present(&self) -> (present: bool)
        ensures
            present == (self@ is Some),
    {
        self.handle.is_some()
    }

    /// The owned handle, if any, without giving it up.
    pub fn handle(&self) -> (handle: Option<&H>)
        ensures
            handle == match self@ {
                Some(h) => Some(&h),
                None => None,
            },
    {
        self.handle.as_ref()
    }

    /// Stores `new_handle` and hands back whatever was owned before, so the
    /// slot is at no point empty while a replacement is swapped in.
    pub fn replace(&mut self, new_handle: H) -> (old_handle: Option<H>)
        ensures
            final(self)@ == Some(new_handle),
            old_handle == old(self)@,
        no_unwind
    {
        let mut incoming = Some(new_handle);
        core::mem::swap(&mut self.handle, &mut incoming);
        incoming
    }

    /// Removes the owned handle, if any, and leaves the slot empty.
    pub fn take(&mut self) -> (handle: Option<H>)
        ensures
            final(self)@ is None,
            handle == old(self)@,
        no_unwind
    {
        let mut outgoing = None;
        core::mem::swap(&mut self.handle, &mut outgoing);
        outgoing
    }
}

} // verus!
