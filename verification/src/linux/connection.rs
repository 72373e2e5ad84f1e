//! The Linux connection, a stub: the registry of open windows and the
//! running flag of a message loop that only waits to be stopped.

use std::rc::Rc;
use vstd::prelude::*;
use crate::appearance::Appearance;
use crate::registry::WindowRegistry;

verus! {

/// Connection state of the Linux application: the open windows by id, of
/// the window state type `W`, the shared GL connection of type `G` once
/// there is one, and whether the message loop is to keep running.
pub struct Connection<W, G> {
    windows: WindowRegistry<W>,
    gl_connection: Option<Rc<G>>,
    running: bool,
}

impl<W, G> Connection<W, G> {
    /// The window registry.
    pub closed spec fn windows(&self) -> WindowRegistry<W> {
        self.windows
    }

    /// Whether the message loop is to keep running.
    pub closed spec fn is_running(&self) -> bool {
        self.running
    }

    /// The shared GL connection, if one was set.
    pub closed spec fn gl(&self) -> Option<Rc<G>> {
        self.gl_connection
    }

    /// The shared GL connection, if one was set.
    pub fn gl_connection(&self) -> (g: Option<&Rc<G>>)
        ensures
            match g {
                Some(g) => self.gl() == Some(*g),
                None => self.gl() is None,
            },
    {
        match &self.gl_connection {
            Some(g) => Some(g),
            None => None,
        }
    }

    /// Set the shared GL connection.
    pub fn set_gl_connection(&mut self, gl: Option<Rc<G>>)
        ensures
            final(self).gl() == gl,
            final(self).windows() == old(self).windows(),
            final(self).is_running() == old(self).is_running(),
    {
        self.gl_connection = gl;
    }

    /// A connection with no windows, whose first window id is 1, with no GL
    /// connection, and whose message loop is not running. First it runs
    /// the spawn queue once, through `run_spawn_queue`, so that the queue
    /// exists before any window does.
    pub fn create_new<F: FnOnce()>(run_spawn_queue: F) -> (c: Self)
        requires
            run_spawn_queue.requires(()),
        ensures
            run_spawn_queue.ensures((), ()),
            c.windows().windows() == Map::<usize, W>::empty(),
            c.windows().next_id() == 1,
            c.windows().ids_below_next(),
            c.gl() is None,
            !c.is_running(),
    {
        run_spawn_queue();
        Connection { windows: WindowRegistry::new(), gl_connection: None, running: false }
    }

    /// Hand out the next window id.
    pub fn next_window_id(&mut self) -> (id: usize)
        ensures
            id == old(self).windows().next_id(),
            final(self).windows().next_id() == crate::registry::id_after(id),
            id < usize::MAX ==> final(self).windows().next_id() == id + 1,
            final(self).windows().windows() == old(self).windows().windows(),
            final(self).is_running() == old(self).is_running(),
            old(self).windows().ids_below_next() && id < usize::MAX ==> {
                &&& final(self).windows().ids_below_next()
                &&& !old(self).windows().windows().contains_key(id)
            },
    {
        self.windows.next_window_id()
    }

    /// The window registered under `window_id`, if any.
    pub fn window_by_id(&self, window_id: usize) -> (w: Option<&W>)
        ensures
            match w {
                Some(w) => self.windows().windows().contains_key(window_id) && *w
                    == self.windows().windows()[window_id],
                None => !self.windows().windows().contains_key(window_id),
            },
    {
        self.windows.window_by_id(window_id)
    }

    /// Register `inner` under `window_id`.
    pub fn register_window(&mut self, window_id: usize, inner: W)
        ensures
            final(self).windows().windows() == old(self).windows().windows().insert(
                window_id,
                inner,
            ),
            final(self).windows().next_id() == old(self).windows().next_id(),
            final(self).is_running() == old(self).is_running(),
            old(self).windows().ids_below_next() && 1 <= window_id < old(self).windows().next_id()
                ==> final(self).windows().ids_below_next(),
    {
        self.windows.register(window_id, inner);
    }

    /// The name of the connection.
    pub fn name(&self) -> (n: String)
        ensures
            n@ == "Linux (stub)"@,
    {
        String::from_str("Linux (stub)")
    }

    /// Mark the message loop as running, as it starts.
    pub fn begin_message_loop(&mut self)
        ensures
            final(self).is_running(),
            final(self).windows() == old(self).windows(),
    {
        self.running = true;
    }

    /// Whether the message loop is to wait another round.
    pub fn keep_running(&self) -> (b: bool)
        ensures
            b == self.is_running(),
    {
        self.running
    }

    /// Ask the message loop to stop: it waits no further round.
    pub fn terminate_message_loop(&mut self)
        ensures
            !final(self).is_running(),
            final(self).windows() == old(self).windows(),
    {
        self.running = false;
    }

    /// The appearance the desktop asks for; always light.
    pub fn get_appearance(&self) -> (a: Appearance)
        ensures
            a == Appearance::Light,
    {
        Appearance::Light
    }
}

} // verus!
