//! Time of day in the game world, drawn at random once per round.

use vstd::prelude::*;
use crate::rng::coin_flip;

verus! {

/// Time of a day in the game: it picks the background and the pipe colour.
#[derive(Clone, Copy, Debug, PartialEq, Eq, Structural)]
pub enum DateTime {
    Day,
    Night,
}

impl DateTime {
    /// Draw the time of day for a new round by a fair coin flip. Either
    /// outcome is possible; everything downstream works with both.
    pub fn random() -> (r: DateTime)
        ensures
            r == DateTime::Day || r == DateTime::Night,
    {
        if coin_flip() {
            DateTime::Day
        } else {
            DateTime::Night
        }
    }

    /// Lower-case name used to pick the background image.
    pub fn name(self) -> (r: &'static str)
        ensures
            self == DateTime::Day ==> r@ == "day"@,
            self == DateTime::Night ==> r@ == "night"@,
    {
        match self {
            DateTime::Day => "day",
            DateTime::Night => "night",
        }
    }

    /// Colour name of the pipe sprite: green pipes by day, red by night.
    pub fn pipe_color(self) -> (r: &'static str)
        ensures
            self == DateTime::Day ==> r@ == "green"@,
            self == DateTime::Night ==> r@ == "red"@,
    {
        match self {
            DateTime::Day => "green",
            DateTime::Night => "red",
        }
    }
}

impl Default for DateTime {
    /// Each round starts with a fresh draw of the time of day.
    fn default() -> (r: DateTime)
        ensures
            r == DateTime::Day || r == DateTime::Night,
    {
        DateTime::random()
    }
}

} // verus!
