//! Notifications on Linux: not sent over D-Bus yet, only reported in the
//! log, as [`crate::toast::notification_log_line`] words it.

use vstd::prelude::*;
use crate::toast::{NotificationError, ToastNotification};

verus! {

/// Show `_toast`: for now the notification is only logged, which never
/// fails.
pub fn show_notif(_toast: ToastNotification) -> (r: Result<(), NotificationError>)
    ensures
        r == Ok::<(), NotificationError>(()),
{
    Ok(())
}

/// Set up notifications; D-Bus needs no set-up.
pub fn initialize() {
}

} // verus!
