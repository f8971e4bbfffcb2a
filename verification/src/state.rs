//! The four-state game loop and the events that move it along.

use vstd::prelude::*;

verus! {

/// Current phase of the game: assets load once, then the game cycles
/// through ready, playing and over.
#[derive(Clone, Copy, Debug, PartialEq, Eq, Structural)]
pub enum GameState {
    AssetLoading,
    Ready,
    Playing,
    Over,
}

impl GameState {
    /// State after asset loading finishes.
    pub open spec fn assets_loaded_next(self) -> GameState {
        if self == GameState::AssetLoading {
            GameState::Ready
        } else {
            self
        }
    }

    /// State after a flap key or click on the ready screen.
    pub open spec fn start_pressed_next(self) -> GameState {
        if self == GameState::Ready {
            GameState::Playing
        } else {
            self
        }
    }

    /// State after the bird collides with a pipe or the ground.
    pub open spec fn collision_next(self) -> GameState {
        if self == GameState::Playing {
            GameState::Over
        } else {
            self
        }
    }

    /// State after a restart request (which may or may not be confirmed).
    pub open spec fn restart_next(self, requested: bool) -> GameState {
        if self == GameState::Over && requested {
            GameState::Ready
        } else {
            self
        }
    }

    /// Asset loading finished: leave the loading screen for the ready screen.
    pub fn on_assets_loaded(self) -> (next: GameState)
        ensures
            next == self.assets_loaded_next(),
    {
        if self == GameState::AssetLoading {
            GameState::Ready
        } else {
            self
        }
    }

    /// A flap key or click on the ready screen starts a round.
    pub fn on_start_pressed(self) -> (next: GameState)
        ensures
            next == self.start_pressed_next(),
    {
        if self == GameState::Ready {
            GameState::Playing
        } else {
            self
        }
    }

    /// The bird hit a pipe or the ground while playing: the round ends.
    pub fn on_collision(self) -> (next: GameState)
        ensures
            next == self.collision_next(),
    {
        if self == GameState::Playing {
            GameState::Over
        } else {
            self
        }
    }

    /// A confirmed restart request on the game-over screen returns to the
    /// ready screen; without a request nothing changes.
    pub fn on_restart(self, requested: bool) -> (next: GameState)
        ensures
            next == self.restart_next(requested),
    {
        if self == GameState::Over && requested {
            GameState::Ready
        } else {
            self
        }
    }
}

/// No event ever re-enters the loading phase: once assets are loaded the
/// game stays inside the ready / playing / over cycle.
pub proof fn lemma_loading_never_reentered(s: GameState, requested: bool)
    requires
        s != GameState::AssetLoading,
    ensures
        s.assets_loaded_next() != GameState::AssetLoading,
        s.start_pressed_next() != GameState::AssetLoading,
        s.collision_next() != GameState::AssetLoading,
        s.restart_next(requested) != GameState::AssetLoading,
{
}

/// The round ends (state becomes over) only from the playing phase: a
/// collision event in any other phase leaves the state alone.
pub proof fn lemma_over_only_from_playing(s: GameState)
    requires
        s != GameState::Over,
    ensures
        s.collision_next() == GameState::Over ==> s == GameState::Playing,
        s.assets_loaded_next() != GameState::Over,
        s.start_pressed_next() != GameState::Over,
        s.restart_next(true) != GameState::Over,
        s.restart_next(false) != GameState::Over,
{
}

} // verus!
