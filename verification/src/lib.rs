//! Platform glue of the Kaku terminal's window layer: key-code mapping,
//! modifier decoding, the window registry of a connection, the message-loop
//! and OpenGL set-up decisions, and the clipboard, menu and notification
//! stubs of the Linux and Windows back ends.

pub mod appearance;
pub mod keys;
pub mod linux;
pub mod registry;
pub mod toast;
pub mod windows;
