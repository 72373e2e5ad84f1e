//! The Windows connection: the registry of open windows, the running flag of
//! the message loop and its decisions, and the Win32 event handle.

use vstd::prelude::*;
use crate::appearance::Appearance;
use crate::registry::WindowRegistry;
use crate::windows::window::WindowInner;

verus! {

/// A Win32 event object, held by its handle.
pub struct EventHandle {
    handle: usize,
}

/// Why an event handle could not be made.
#[derive(Debug, Clone, Copy, PartialEq, Eq, Structural)]
pub enum EventError {
    /// `CreateEventW` gave no handle.
    CreateFailed,
}

impl EventError {
    /// The message that describes the error.
    pub fn message(&self) -> (m: &'static str)
        ensures
            m@ == "Failed to create event handle"@,
    {
        proof {
            reveal_strlit("Failed to create event handle");
        }
        "Failed to create event handle"
    }
}

/// The value `WaitForSingleObject` returns when the object was signalled.
pub const WAIT_OBJECT_0: u32 = 0;

impl EventHandle {
    /// The raw handle.
    pub closed spec fn raw(&self) -> usize {
        self.handle
    }

    /// Take the handle that `CreateEventW` returned for a manual-reset event
    /// that starts unsignalled; a null handle is the failure to create one.
    pub fn new_manual_reset(created: usize) -> (r: Result<EventHandle, EventError>)
        ensures
            created == 0 ==> r == Err::<EventHandle, EventError>(EventError::CreateFailed),
            created != 0 ==> r is Ok && r->Ok_0.raw() == created,
    {
        if created == 0 {
            Err(EventError::CreateFailed)
        } else {
            Ok(EventHandle { handle: created })
        }
    }

    /// Whether a wait on this event, which returned `wait_result`, saw the
    /// event signalled.
    pub fn wait(&self, wait_result: u32) -> (signalled: bool)
        ensures
            signalled == (wait_result == WAIT_OBJECT_0),
    {
        wait_result == WAIT_OBJECT_0
    }

    /// The raw handle.
    pub fn handle(&self) -> (h: usize)
        ensures
            h == self.raw(),
    {
        self.handle
    }

    /// Whether dropping this event must close its handle: only a non-null
    /// handle is closed.
    pub fn needs_close(&self) -> (b: bool)
        ensures
            b == (self.raw() != 0),
    {
        self.handle != 0
    }
}

/// What the message loop does with the value `GetMessageW` returned.
#[derive(Debug, Clone, Copy, PartialEq, Eq, Structural)]
pub enum LoopAction {
    /// Translate and dispatch the message, then go on.
    Dispatch,
    /// `WM_QUIT` arrived: leave the loop.
    Quit,
    /// `GetMessageW` failed: log the error and leave the loop.
    Fail,
}

/// What the message loop does with the value `GetMessageW` returned: 0 is
/// `WM_QUIT`, -1 an error, anything else a message to dispatch.
pub fn message_loop_action(get_message_result: i32) -> (a: LoopAction)
    ensures
        get_message_result == 0 ==> a == LoopAction::Quit,
        get_message_result == -1 ==> a == LoopAction::Fail,
        get_message_result != 0 && get_message_result != -1 ==> a == LoopAction::Dispatch,
{
    if get_message_result == 0 {
        LoopAction::Quit
    } else if get_message_result == -1 {
        LoopAction::Fail
    } else {
        LoopAction::Dispatch
    }
}

/// Connection state of the Windows application: the open windows by id,
/// and whether the message loop is to keep running.
pub struct Connection {
    windows: WindowRegistry<WindowInner>,
    running: bool,
}

impl Connection {
    /// The window registry.
    pub closed spec fn windows(&self) -> WindowRegistry<WindowInner> {
        self.windows
    }

    /// Whether the message loop is to keep running.
    pub closed spec fn is_running(&self) -> bool {
        self.running
    }

    /// A connection with no windows, whose first window id is 1, and whose
    /// message loop is not running.
    pub fn create_new() -> (c: Self)
        ensures
            c.windows().windows() == Map::<usize, WindowInner>::empty(),
            c.windows().next_id() == 1,
            c.windows().ids_below_next(),
            !c.is_running(),
    {
        Connection { windows: WindowRegistry::new(), running: false }
    }

    /// Hand out the next window id.
    pub fn next_window_id(&mut self) -> (id: usize)
        ensures
            id == old(self).windows().next_id(),
            final(self).windows().next_id() == crate::registry::id_after(id),
            id < usize::MAX ==> final(self).windows().next_id() == id + 1,
            final(self).windows().windows() == old(self).windows().windows(),
            final(self).is_running() == old(self).is_running(),
            old(self).windows().ids_below_next() && id < usize::MAX ==> {
                &&& final(self).windows().ids_below_next()
                &&& !old(self).windows().windows().contains_key(id)
            },
    {
        self.windows.next_window_id()
    }

    /// The window registered under `window_id`, if any.
    pub fn window_by_id(&self, window_id: usize) -> (w: Option<&WindowInner>)
        ensures
            match w {
                Some(w) => self.windows().windows().contains_key(window_id) && *w
                    == self.windows().windows()[window_id],
                None => !self.windows().windows().contains_key(window_id),
            },
    {
        self.windows.window_by_id(window_id)
    }

    /// Register `inner` under `window_id`.
    pub fn register_window(&mut self, window_id: usize, inner: WindowInner)
        ensures
            final(self).windows().windows() == old(self).windows().windows().insert(
                window_id,
                inner,
            ),
            final(self).windows().next_id() == old(self).windows().next_id(),
            final(self).is_running() == old(self).is_running(),
            old(self).windows().ids_below_next() && 1 <= window_id < old(self).windows().next_id()
                ==> final(self).windows().ids_below_next(),
    {
        self.windows.register(window_id, inner);
    }

    /// The name of the connection.
    pub fn name(&self) -> (n: String)
        ensures
            n@ == "Windows"@,
    {
        String::from_str("Windows")
    }

    /// Mark the message loop as running, as it starts.
    pub fn begin_message_loop(&mut self)
        ensures
            final(self).is_running(),
            final(self).windows() == old(self).windows(),
    {
        self.running = true;
    }

    /// Whether the message loop is to fetch another message.
    pub fn keep_running(&self) -> (b: bool)
        ensures
            b == self.is_running(),
    {
        self.running
    }

    /// Ask the message loop to stop: it fetches no further message.
    pub fn terminate_message_loop(&mut self)
        ensures
            !final(self).is_running(),
            final(self).windows() == old(self).windows(),
    {
        self.running = false;
    }

    /// The appearance the desktop asks for; always light for now.
    pub fn get_appearance(&self) -> (a: Appearance)
        ensures
            a == Appearance::Light,
    {
        Appearance::Light
    }
}

} // verus!
