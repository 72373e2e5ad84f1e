//! Windows windows: a [`Window`] is only an id; the state of the window is a
//! [`WindowInner`] that the connection keeps under that id.

use vstd::prelude::*;
use crate::windows::connection::Connection;

verus! {

/// A window, known by its id alone.
#[derive(Debug, Clone, PartialEq, Eq, Structural, Hash, PartialOrd, Ord)]
pub struct Window {
    id: usize,
}

impl Window {
    /// The id of this window.
    pub closed spec fn id(&self) -> usize {
        self.id
    }

    /// The id of this window.
    pub fn window_id(&self) -> (id: usize)
        ensures
            id == self.id(),
    {
        self.id
    }

    /// Show the window; the native window is not made yet, so there is
    /// nothing to show.
    pub fn show(&self) {
    }

    /// Close the window; nothing to close yet.
    pub fn close(&self) {
    }

    /// Ask for the window to be painted again; nothing to paint yet.
    pub fn invalidate(&self) {
    }

    /// Set the title of the native window; there is none yet.
    pub fn set_title(&self, _title: &str) {
    }

    /// Resize the inner area of the native window; there is none yet.
    pub fn set_inner_size(&self, _width: usize, _height: usize) {
    }

    /// Create a window: take the connection's next window id, and register
    /// under it a fresh [`WindowInner`] whose event sender is assigned to the
    /// new window.
    pub fn new_window(conn: &mut Connection) -> (window: Window)
        ensures
            window.id() == old(conn).windows().next_id(),
            final(conn).windows().next_id() == crate::registry::id_after(old(conn).windows().next_id()),
            window.id() < usize::MAX ==> final(conn).windows().next_id() == window.id() + 1,
            final(conn).windows().windows() == old(conn).windows().windows().insert(
                window.id(),
                final(conn).windows().windows()[window.id()],
            ),
            final(conn).windows().windows()[window.id()].is_fresh_for(window),
            final(conn).is_running() == old(conn).is_running(),
            old(conn).windows().ids_below_next() && old(conn).windows().next_id() < usize::MAX ==> {
                &&& !old(conn).windows().windows().contains_key(window.id())
                &&& final(conn).windows().ids_below_next()
            },
    {
        let window_id = conn.next_window_id();
        let mut inner = WindowInner::new();
        let mut sender = WindowEventSender::new();
        let window = Window { id: window_id };
        sender.assign_window(Window { id: window_id });
        inner.event_sender = Some(sender);
        conn.register_window(window_id, inner);
        window
    }
}

/// The part of a window's event sender that the window layer reads: the
/// window that events are delivered for. The handler itself stays with the
/// caller.
pub struct WindowEventSender {
    window: Option<Window>,
}

impl WindowEventSender {
    /// The window the sender is assigned to, if any.
    pub closed spec fn assigned(&self) -> Option<Window> {
        self.window
    }

    /// A sender not yet assigned to a window.
    pub fn new() -> (s: Self)
        ensures
            s.assigned() is None,
    {
        WindowEventSender { window: None }
    }

    /// Assign the sender to `window`.
    pub fn assign_window(&mut self, window: Window)
        ensures
            final(self).assigned() == Some(window),
    {
        self.window = Some(window);
    }

    /// The window the sender is assigned to, if any.
    pub fn window(&self) -> (w: Option<&Window>)
        ensures
            match w {
                Some(w) => self.assigned() == Some(*w),
                None => self.assigned() is None,
            },
    {
        match &self.window {
            Some(w) => Some(w),
            None => None,
        }
    }
}

/// The state of a window that the connection keeps under its id: the native
/// window and device-context handles (0 while there is none), the event
/// sender and the title.
pub struct WindowInner {
    pub hwnd: usize,
    pub hdc: usize,
    event_sender: Option<WindowEventSender>,
    title: String,
}

impl WindowInner {
    /// The window the event sender is assigned to, if there is a sender
    /// and it is assigned.
    pub closed spec fn sender_window(&self) -> Option<Window> {
        match self.event_sender {
            Some(s) => s.assigned(),
            None => None,
        }
    }

    /// The native window and device-context handles.
    pub closed spec fn handles(&self) -> (usize, usize) {
        (self.hwnd, self.hdc)
    }

    /// Whether there is an event sender.
    pub closed spec fn has_sender(&self) -> bool {
        self.event_sender is Some
    }

    /// The title.
    pub closed spec fn title(&self) -> Seq<char> {
        self.title@
    }

    /// The state of a window just created for `window`: no native handles,
    /// an empty title, and an event sender assigned to `window`.
    pub open spec fn is_fresh_for(&self, window: Window) -> bool {
        &&& self.handles() == (0usize, 0usize)
        &&& self.has_sender()
        &&& self.sender_window() == Some(window)
        &&& self.title() == Seq::<char>::empty()
    }

    /// A window state with no native handles, no event sender and an empty
    /// title.
    pub fn new() -> (w: Self)
        ensures
            w.handles() == (0usize, 0usize),
            !w.has_sender(),
            w.title() == Seq::<char>::empty(),
    {
        WindowInner { hwnd: 0, hdc: 0, event_sender: None, title: String::new() }
    }

    /// The event sender, if any.
    pub fn event_sender(&self) -> (s: Option<&WindowEventSender>)
        ensures
            s is Some == self.has_sender(),
            match s {
                Some(s) => self.sender_window() == s.assigned(),
                None => true,
            },
    {
        match &self.event_sender {
            Some(s) => Some(s),
            None => None,
        }
    }
}

/// A window made by `new_window` is found again under its id, with its
/// event sender assigned to it, and every other id keeps the window it had
/// (or stays free).
pub proof fn lemma_new_window_found(
    before: Map<usize, WindowInner>,
    after: Map<usize, WindowInner>,
    window: Window,
)
    requires
        after == before.insert(window.id(), after[window.id()]),
        after[window.id()].is_fresh_for(window),
    ensures
        after.contains_key(window.id()),
        after[window.id()].sender_window() == Some(window),
        after[window.id()].handles() == (0usize, 0usize),
        forall|id: usize|
            id != window.id() ==> (#[trigger] after.contains_key(id) == before.contains_key(id)
                && (before.contains_key(id) ==> after[id] == before[id])),
{
}

} // verus!
