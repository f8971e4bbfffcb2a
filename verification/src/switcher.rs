//! Helper methods for two-state values such as the audio flags.

use vstd::prelude::*;

verus! {

/// A value with an open and a closed state that can be switched and
/// toggled.
pub trait Switcher where Self: Sized {
    /// The open state.
    spec fn open_state() -> Self;

    /// The closed state.
    spec fn closed_state() -> Self;

    /// The state this value toggles to.
    spec fn toggled(self) -> Self;

    /// Change the value to the open state.
    fn on(&mut self)
        ensures
            *final(self) == Self::open_state(),
    ;

    /// Change the value to the closed state.
    fn off(&mut self)
        ensures
            *final(self) == Self::closed_state(),
    ;

    /// Toggle the value between the open and the closed state.
    fn toggle(&mut self)
        ensures
            *final(self) == old(self).toggled(),
    ;
}

impl Switcher for bool {
    open spec fn open_state() -> bool {
        true
    }

    open spec fn closed_state() -> bool {
        false
    }

    open spec fn toggled(self) -> bool {
        !self
    }

    fn on(&mut self) {
        *self = true;
    }

    fn off(&mut self) {
        *self = false;
    }

    fn toggle(&mut self) {
        *self = !*self;
    }
}

} // verus!
