//! The bird: its sprite colour, flap animation and the soul that rises
//! from the ground when a round ends.
//!
//! The bird's vertical free-fall uses fractional physics and lives with the
//! host program; what the rules need of the bird is its integer pixel box,
//! described by the constants here.

use vstd::prelude::*;
use crate::rng::sample_range;

verus! {

/// Sprite width of the bird in pixels.
pub const BIRD_WIDTH: i32 = 34;

/// Sprite height of the bird in pixels.
pub const BIRD_HEIGHT: i32 = 24;

/// Where the bird waits on the ready screen.
pub const BIRD_START_X: i32 = -53;

/// Vertical start of the bird on the ready screen.
pub const BIRD_START_Y: i32 = 9;

/// The soul sprite has risen to heaven once it reaches this height.
pub const HEAVEN_Y: i32 = 267;

/// Colour of the bird sprite, drawn at random for each round.
#[derive(Clone, Copy, Debug, PartialEq, Eq, Structural)]
pub enum BirdColor {
    Red,
    Blue,
    Yellow,
}

impl BirdColor {
    /// The colour that a uniform draw from three values selects.
    pub open spec fn from_index_spec(i: int) -> BirdColor {
        if i == 0 {
            BirdColor::Red
        } else if i == 1 {
            BirdColor::Blue
        } else {
            BirdColor::Yellow
        }
    }

    /// Map a draw from three values to a colour.
    pub fn from_index(i: i32) -> (r: BirdColor)
        ensures
            r == BirdColor::from_index_spec(i as int),
    {
        match i {
            0 => BirdColor::Red,
            1 => BirdColor::Blue,
            _ => BirdColor::Yellow,
        }
    }

    /// Draw a colour for a new round; each of the three is possible.
    pub fn random() -> (r: BirdColor)
        ensures
            r == BirdColor::Red || r == BirdColor::Blue || r == BirdColor::Yellow,
    {
        BirdColor::from_index(sample_range(0, 3))
    }

    /// Lower-case name used to pick the sprite images.
    pub fn name(self) -> (r: &'static str)
        ensures
            self == BirdColor::Red ==> r@ == "red"@,
            self == BirdColor::Blue ==> r@ == "blue"@,
            self == BirdColor::Yellow ==> r@ == "yellow"@,
    {
        match self {
            BirdColor::Red => "red",
            BirdColor::Blue => "blue",
            BirdColor::Yellow => "yellow",
        }
    }
}

/// Wing animation: the bird cycles through three frames (up, mid, down),
/// stepping one frame each time its repeating timer fires.
pub struct FlapAnimation {
    /// Index of the frame currently shown; always one of 0, 1, 2.
    pub current_frame: usize,
}

impl FlapAnimation {
    /// The frame index stays inside the three-frame cycle.
    pub open spec fn wf(self) -> bool {
        self.current_frame < 3
    }

    /// A fresh animation starts on the first frame.
    pub fn new() -> (r: FlapAnimation)
        ensures
            r.wf(),
            r.current_frame == 0,
    {
        FlapAnimation { current_frame: 0 }
    }

    /// The timer fired: show the next frame of the three-frame cycle.
    pub fn advance(&mut self)
        requires
            old(self).wf(),
        ensures
            final(self).wf(),
            final(self).current_frame == (old(self).current_frame + 1) % 3,
    {
        self.current_frame = (self.current_frame + 1) % 3;
    }
}

/// One frame of the soul's ascent: it rises one pixel.
pub fn soul_rise(y: i32) -> (r: i32)
    requires
        y < i32::MAX,
    ensures
        r == y + 1,
{
    y + 1
}

/// Whether the soul has reached heaven, which lets the restart button
/// appear.
pub fn soul_in_heaven(y: i32) -> (r: bool)
    ensures
        r == (y >= HEAVEN_Y),
{
    y >= HEAVEN_Y
}

} // verus!
