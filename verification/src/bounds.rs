//! Placement of a web view inside its parent window.

use vstd::prelude::*;

verus! {

/// The smallest width or height a web view is ever given.
pub const MIN_EXTENT: i32 = 1;

/// A rectangle in logical pixels, relative to the parent window.
#[derive(Clone, Copy, Debug, PartialEq, Eq, Structural)]
pub struct Bounds {
    pub x: i32,
    pub y: i32,
    pub width: i32,
    pub height: i32,
}

/// The extent that is applied when `requested` is asked for.
pub open spec fn clamp_extent(requested: i32) -> i32 {
    if requested < MIN_EXTENT {
        MIN_EXTENT
    } else {
        requested
    }
}

impl Bounds {
    /// A rectangle can be applied when it covers at least one pixel in each direction.
    pub open spec fn wf(self) -> bool {
        self.width >= MIN_EXTENT && self.height >= MIN_EXTENT
    }

    /// The rectangle at the same place with width and height raised to the minimum.
    pub open spec fn clamped(self) -> Bounds {
        Bounds {
            x: self.x,
            y: self.y,
            width: clamp_extent(self.width),
            height: clamp_extent(self.height),
        }
    }

    /// Raises width and height to the minimum where they are below it.
    pub fn clamp(self) -> (b: Bounds)
        ensures
            b == self.clamped(),
            b.wf(),
    {
        make_bounds(self.x, self.y, self.width, self.height)
    }
}

/// Builds the rectangle at `(x, y)`, raising a width or height below one pixel to one.
pub fn make_bounds(x: i32, y: i32, width: i32, height: i32) -> (b: Bounds)
    ensures
        b == (Bounds { x, y, width, height }).clamped(),
        b.wf(),
{
    let width: i32 = if width < MIN_EXTENT { MIN_EXTENT } else { width };
    let height: i32 = if height < MIN_EXTENT { MIN_EXTENT } else { height };
    Bounds { x, y, width, height }
}

/// Clamping never yields an empty rectangle, keeps the position, and changes
/// nothing in a rectangle that can already be applied.
pub proof fn lemma_clamped_is_applicable(b: Bounds)
    ensures
        b.clamped().wf(),
        b.clamped().x == b.x && b.clamped().y == b.y,
        b.wf() ==> b.clamped() == b,
        b.clamped().clamped() == b.clamped(),
{
}

} // verus!
