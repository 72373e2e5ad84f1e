//! The light or dark look that the desktop asks of applications.

use vstd::prelude::*;

verus! {

/// The appearance the desktop environment asks for.
#[derive(Debug, Clone, Copy, PartialEq, Eq, Structural)]
pub enum Appearance {
    Light,
    Dark,
    LightHighContrast,
    DarkHighContrast,
}

} // verus!
