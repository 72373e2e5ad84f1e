//! The in-process event that the spawn queue signals on Windows.

use vstd::prelude::*;

verus! {

/// A manual-reset event: once set it stays signalled until it is reset.
pub struct EventHandle {
    signaled: bool,
    manual_reset: bool,
}

impl EventHandle {
    /// Whether the event is signalled.
    pub closed spec fn is_set(&self) -> bool {
        self.signaled
    }

    /// Whether the event stays signalled until it is reset.
    pub closed spec fn is_manual_reset(&self) -> bool {
        self.manual_reset
    }

    /// A manual-reset event that starts unsignalled; making one never fails.
    pub fn new_manual_reset() -> (r: Result<Self, ()>)
        ensures
            r is Ok,
            r matches Ok(e) ==> !e.is_set() && e.is_manual_reset(),
    {
        Ok(EventHandle { signaled: false, manual_reset: true })
    }

    /// Signal the event.
    pub fn set_event(&mut self)
        ensures
            final(self).is_set(),
            final(self).is_manual_reset() == old(self).is_manual_reset(),
    {
        self.signaled = true;
    }

    /// Clear the event.
    pub fn reset_event(&mut self)
        ensures
            !final(self).is_set(),
            final(self).is_manual_reset() == old(self).is_manual_reset(),
    {
        self.signaled = false;
    }

    /// Whether the event is signalled.
    pub fn is_signaled(&self) -> (b: bool)
        ensures
            b == self.is_set(),
    {
        self.signaled
    }
}

} // verus!
