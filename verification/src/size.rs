//! Physical window sizes in pixels.

use vstd::prelude::*;

verus! {

/// A window or surface extent in physical pixels.
#[derive(Clone, Copy, Debug, PartialEq, Eq, Structural)]
pub struct Size {
    pub width: u32,
    pub height: u32,
}

impl Size {
    /// A size with a zero dimension belongs to a minimized window; its
    /// surface can be neither configured nor presented.
    pub open spec fn is_zero(self) -> bool {
        self.width == 0 || self.height == 0
    }

    pub fn new(width: u32, height: u32) -> (size: Size)
        ensures
            size == (Size { width, height }),
    {
        Size { width, height }
    }

    /// Whether either dimension is zero.
    pub fn has_zero_dimension(&self) -> (zero: bool)
        ensures
            zero == self.is_zero(),
    {
        self.width == 0 || self.height == 0
    }
}

} // verus!
