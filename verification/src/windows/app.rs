//! Application life cycle on Windows; most of it has nothing to do yet.

use vstd::prelude::*;

verus! {

/// Request that the application terminate; nothing to do on Windows yet.
pub fn request_app_termination<O>(_origin: O, _detail: Option<&str>) {
}

/// Open the service requests that arrived before start-up; Windows has
/// none.
pub fn flush_pending_service_opens() {
}

/// Bring the global hot-key registration in line with the configuration;
/// not done on Windows yet.
pub fn sync_global_hotkey_registration() {
}

/// Whether the system is asleep; never on Windows for now.
pub fn is_system_sleeping() -> (b: bool)
    ensures
        !b,
{
    false
}

} // verus!
