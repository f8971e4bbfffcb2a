//! The ground strip the bird can crash into.
//!
//! Two copies of the strip scroll left in lockstep (see `scroll`); the
//! bird only ever meets the top edge, recorded here as the collider
//! position.

use vstd::prelude::*;

verus! {

/// Sprite width of the ground strip in pixels.
pub const BASE_WIDTH: i32 = 336;

/// Sprite height of the ground strip in pixels.
pub const BASE_HEIGHT: i32 = 112;

/// Vertical centre of the strip: its bottom sits on the screen's bottom
/// edge, half a strip below half a screen.
pub const BASE_SPAWN_Y: i32 = -200;

/// One copy of the ground strip.
#[derive(Clone, Copy, Debug, PartialEq, Eq, Structural)]
pub struct Base {
    /// Horizontal anchor of this copy.
    pub x: i32,
    /// Vertical centre of the strip.
    pub y: i32,
    /// The second copy draws one wrap period right of the anchor.
    pub secondary: bool,
    /// Height of the strip's top edge, where the bird can land.
    pub collider_pos: i32,
}

impl Base {
    /// A strip copy at `(x, y)`; its collider sits half a strip above its
    /// centre.
    pub fn new(x: i32, y: i32, secondary: bool) -> (r: Base)
        requires
            y + BASE_HEIGHT / 2 <= i32::MAX,
        ensures
            r.x == x,
            r.y == y,
            r.secondary == secondary,
            r.collider_pos == y + BASE_HEIGHT / 2,
    {
        Base { x, y, secondary, collider_pos: y + BASE_HEIGHT / 2 }
    }
}

} // verus!
