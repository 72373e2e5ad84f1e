//! The Linux back end of the window layer, a stub so far.

pub mod clipboard;
pub mod connection;
pub mod event;

use vstd::prelude::*;

verus! {

/// Set up the Linux back end; there is nothing to set up.
pub fn init() {
}

} // verus!
