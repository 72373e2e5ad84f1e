//! Windows utilities.

use vstd::prelude::*;

verus! {

/// Whether the application runs in a Remote Desktop session. This build
/// targets no Windows session, so the answer is no; on Windows the answer
/// comes from [`crate::windows::rdp_session_from_metric`].
pub fn is_running_in_rdp_session() -> (b: bool)
    ensures
        !b,
{
    false
}

} // verus!
