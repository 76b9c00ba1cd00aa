use vstd::prelude::*;

verus! {

/// An axis-aligned rectangle in pixels.
///
/// The same record serves as a source window into a sprite sheet and as a
/// placement on the screen. Width and height are unsigned, so they cannot be
/// negative; nothing else is asked of a rectangle.
#[derive(Clone, Copy, Debug, PartialEq, Eq, Structural)]
pub struct Rect {
    /// The horizontal position of the left edge.
    pub x: i32,
    /// The vertical position of the top edge.
    pub y: i32,
    /// The width.
    pub width: u32,
    /// The height.
    pub height: u32,
}

impl Rect {
    /// The rectangle with its top-left corner at `(x, y)` and the given size.
    pub fn new(x: i32, y: i32, width: u32, height: u32) -> (r: Rect)
        ensures
            r == (Rect { x, y, width, height }),
    {
        Rect { x, y, width, height }
    }
}

} // verus!
