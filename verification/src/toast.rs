//! Toast notifications: the notification, and the line that reports it on
//! the platforms that only log it.

pub mod linux;
pub mod windows;

use vstd::prelude::*;

verus! {

/// A notification to show to the user.
pub struct ToastNotification {
    pub title: String,
    pub message: String,
    pub url: Option<String>,
}

/// Why a notification could not be shown.
#[derive(Debug, Clone, Copy, PartialEq, Eq, Structural)]
pub enum NotificationError {
    /// The platform refused the notification.
    Rejected,
}

/// The line that reports a notification: `Toast notification: `, the
/// title, ` - `, and the message.
pub open spec fn notification_line(title: Seq<char>, message: Seq<char>) -> Seq<char> {
    "Toast notification: "@ + title + " - "@ + message
}

/// The line that reports `toast` in the log.
pub fn notification_log_line(toast: &ToastNotification) -> (line: String)
    ensures
        line@ == notification_line(toast.title@, toast.message@),
        line@ == "Toast notification: "@ + toast.title@ + " - "@ + toast.message@,
{
    let mut line = String::from_str("Toast notification: ");
    line.append(toast.title.as_str());
    line.append(" - ");
    line.append(toast.message.as_str());
    line
}

/// The reported line is the prefix `Toast notification: `, then the title,
/// then ` - `, then the message, for every title and message: the title
/// always comes first and nothing is dropped or reordered.
pub proof fn lemma_notification_line(title: Seq<char>, message: Seq<char>)
    ensures
        notification_line(title, message) == "Toast notification: "@ + title + " - "@ + message,
        notification_line(title, message).len() == "Toast notification: "@.len() + title.len()
            + " - "@.len() + message.len(),
        notification_line(title, message).subrange(
            "Toast notification: "@.len() as int,
            ("Toast notification: "@.len() + title.len()) as int,
        ) == title,
{
    let p = "Toast notification: "@;
    let line = p + title + " - "@ + message;
    assert(line.subrange(p.len() as int, (p.len() + title.len()) as int) =~= title);
}

} // verus!
