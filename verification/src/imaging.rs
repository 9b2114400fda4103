//! Imaging value types.

use vstd::prelude::*;

verus! {

/// A `Noesis::Int32Rect`: an integer pixel rectangle (`x`, `y`, `width`,
/// `height`), used for `CroppedBitmap::SourceRect`. The default is the empty
/// rectangle at the origin.
#[derive(Copy, Clone, Debug, Default, PartialEq, Eq)]
pub struct Int32Rect {
    pub x: i32,
    pub y: i32,
    pub width: u32,
    pub height: u32,
}

impl Int32Rect {
    /// Construct from an origin and an extent.
    pub fn new(x: i32, y: i32, width: u32, height: u32) -> (r: Self)
        ensures
            r.x == x,
            r.y == y,
            r.width == width,
            r.height == height,
    {
        Int32Rect { x, y, width, height }
    }
}

} // verus!
