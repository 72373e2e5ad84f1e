//! The Windows back end of the window layer.

pub mod app;
pub mod bitmap;
pub mod clipboard;
pub mod connection;
pub mod event;
pub mod gl;
pub mod keycodes;
pub mod menu;
pub mod utils;
pub mod window;

use vstd::prelude::*;

verus! {

/// The `GetSystemMetrics` index that tells a Remote Desktop session.
pub const SM_REMOTESESSION: i32 = 0x1000;

/// Whether the value `GetSystemMetrics(SM_REMOTESESSION)` returned says
/// the application runs in a Remote Desktop session: any non-zero value.
pub fn rdp_session_from_metric(metric: i32) -> (b: bool)
    ensures
        b == (metric != 0),
{
    metric != 0
}

/// Whether the application runs in a Remote Desktop session, on a build
/// that targets no Windows session: never.
pub fn is_running_in_rdp_session() -> (b: bool)
    ensures
        !b,
{
    false
}

} // verus!
