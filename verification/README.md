# kaku_window

The platform layer of the Kaku terminal's windows, as a Verus library.

- `src/windows/keycodes.rs`: Windows virtual-key codes to keys, and the key
  states of the modifier keys to a modifier set, with the laws that the
  mapping loses nothing and letters come out in lower case.
- `src/registry.rs`, `src/windows/window.rs`, `src/windows/connection.rs`,
  `src/linux/connection.rs`: the windows a connection keeps by id, the id
  counter, window creation, and the message-loop decisions.
- `src/windows/gl.rs`: the WGL context set-up as a sequence of steps; each
  failure names exactly the handles to give back.
- The clipboard, event, menu, application and notification modules of both
  back ends.

`app/` makes the Win32, OpenGL and logging calls around the library.
