//! The Windows clipboard, which is not implemented yet: every operation
//! fails.

use std::path::PathBuf;
use vstd::prelude::*;

verus! {

/// A file system path, held as an opaque value.
#[verifier::external_type_specification]
#[verifier::external_body]
pub struct ExPathBuf(PathBuf);

/// What a clipboard holds: text, or a list of files.
pub enum ClipboardData {
    Text(String),
    Files(Vec<PathBuf>),
}

/// Why a clipboard operation failed.
#[derive(Debug, Clone, Copy, PartialEq, Eq, Structural)]
pub enum ClipboardError {
    /// The clipboard is not implemented on this platform.
    NotImplemented,
}

impl ClipboardError {
    /// The message that describes the error.
    pub fn message(&self) -> (m: &'static str)
        ensures
            m@ == "Clipboard not implemented on Windows stub"@,
    {
        "Clipboard not implemented on Windows stub"
    }
}

/// The Windows clipboard.
pub struct Clipboard {}

impl Clipboard {
    /// A clipboard handle.
    pub fn new() -> (c: Self)
        ensures
            c == (Clipboard {  }),
    {
        Clipboard {  }
    }

    /// Read the clipboard text; not implemented, so it always fails.
    pub fn read(&self) -> (r: Result<String, ClipboardError>)
        ensures
            r matches Err(e) && e == ClipboardError::NotImplemented,
    {
        Err(ClipboardError::NotImplemented)
    }

    /// Read the clipboard data; not implemented, so it always fails.
    pub fn read_data(&self) -> (r: Result<ClipboardData, ClipboardError>)
        ensures
            r matches Err(e) && e == ClipboardError::NotImplemented,
    {
        Err(ClipboardError::NotImplemented)
    }

    /// Put `text` on the clipboard; not implemented, so it always fails.
    pub fn write(&self, text: String) -> (r: Result<(), ClipboardError>)
        ensures
            r == Err::<(), ClipboardError>(ClipboardError::NotImplemented),
    {
        Err(ClipboardError::NotImplemented)
    }

    /// Put a list of files on the clipboard; not implemented, so it always
    /// fails.
    pub fn write_files(&self, files: &[PathBuf]) -> (r: Result<(), ClipboardError>)
        ensures
            r == Err::<(), ClipboardError>(ClipboardError::NotImplemented),
    {
        Err(ClipboardError::NotImplemented)
    }
}

impl Default for Clipboard {
    fn default() -> (c: Self)
        ensures
            c == (Clipboard {  }),
    {
        Clipboard::new()
    }
}

} // verus!
