//! Bitmaps on Windows: a reference to an image, with nothing read from it
//! yet.

use std::marker::PhantomData;
use vstd::prelude::*;

verus! {

/// An image that can be drawn.
pub trait BitmapImage {
}

/// A reference to a bitmap image for the lifetime `'a`.
pub struct BitmapRef<'a> {
    _phantom: PhantomData<&'a ()>,
}

impl<'a> BitmapRef<'a> {
    /// A reference to `_image`.
    pub fn with_image(_image: &'a dyn BitmapImage) -> (r: Self) {
        BitmapRef { _phantom: PhantomData }
    }
}

} // verus!
