//! The in-process event that the spawn queue signals on Linux.

use vstd::prelude::*;

verus! {

/// An event that stays signalled from `set_event` until `reset_event`.
pub struct EventHandle {
    signaled: bool,
}

impl EventHandle {
    /// Whether the event is signalled.
    pub closed spec fn is_set(&self) -> bool {
        self.signaled
    }

    /// An event that starts unsignalled; making one never fails.
    pub fn new_manual_reset() -> (r: Result<Self, ()>)
        ensures
            r is Ok,
            r matches Ok(e) ==> !e.is_set(),
    {
        Ok(EventHandle { signaled: false })
    }

    /// Signal the event.
    pub fn set_event(&mut self)
        ensures
            final(self).is_set(),
    {
        self.signaled = true;
    }

    /// Clear the event.
    pub fn reset_event(&mut self)
        ensures
            !final(self).is_set(),
    {
        self.signaled = false;
    }

    /// Whether the event is signalled.
    pub fn is_signaled(&self) -> (b: bool)
        ensures
            b == self.is_set(),
    {
        self.signaled
    }
}

} // verus!
