use crate::rect::Rect;
use vstd::prelude::*;

verus! {

/// One step of drawing a frame, to be carried out on the screen by whoever
/// holds it.
#[derive(Clone, Copy, Debug, PartialEq, Eq, Structural)]
pub enum DrawCommand {
    /// Wipe the frame buffer.
    Clear,
    /// Stretch the whole texture over the whole screen.
    Fill { texture_idx: usize },
    /// Copy the window `source` of the texture into the screen rectangle
    /// `dest`.
    Sprite { texture_idx: usize, source: Rect, dest: Rect },
    /// Show the frame buffer.
    Present,
}

impl DrawCommand {
    /// The index of the texture that the command copies from, if it copies
    /// from one.
    pub open spec fn texture(self) -> Option<usize> {
        match self {
            DrawCommand::Fill { texture_idx } => Some(texture_idx),
            DrawCommand::Sprite { texture_idx, .. } => Some(texture_idx),
            _ => None,
        }
    }

    /// Whether the command copies from a texture with an index below
    /// `count`, or from none at all.
    pub open spec fn texture_below(self, count: nat) -> bool {
        self.texture() matches Some(texture_idx) ==> texture_idx < count
    }

    /// The index of the texture that the command copies from, if it copies
    /// from one.
    pub fn texture_idx(&self) -> (idx: Option<usize>)
        ensures
            idx == self.texture(),
    {
        match self {
            DrawCommand::Fill { texture_idx } => Some(*texture_idx),
            DrawCommand::Sprite { texture_idx, .. } => Some(*texture_idx),
            _ => None,
        }
    }
}

} // verus!
