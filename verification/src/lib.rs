//! Core rules of a small flap-and-dodge arcade game, verified.
//!
//! The library models the game's discrete logic on an integer pixel grid:
//! the four-state game loop, axis-aligned overlap tests, the endless pipe
//! stream, score keeping and its digit display, medal awards, the game-over
//! overlay sequence, and the looping ground/background scroll. Rendering,
//! audio and input belong to the host program; it feeds plain values in and
//! reads plain values back.

pub mod base;
pub mod bird;
pub mod collision;
pub mod daytime;
pub mod game_over;
pub mod geometry;
pub mod medal;
pub mod pipe;
mod rng;
pub mod score;
pub mod scroll;
pub mod state;
pub mod switcher;

use vstd::prelude::*;

verus! {

/// Width of the playing field in pixels; x = 0 is mid-screen.
pub const SCREEN_WIDTH: i32 = 288;

/// Height of the playing field in pixels; y = 0 is mid-screen.
pub const SCREEN_HEIGHT: i32 = 512;

} // verus!

pub use base::Base;
pub use bird::BirdColor;
pub use bird::FlapAnimation;
pub use collision::CollisionOutcome;
pub use collision::check_collision;
pub use daytime::DateTime;
pub use game_over::CursorPos;
pub use game_over::GameOverSequence;
pub use game_over::GameOverTextDisplayed;
pub use game_over::MedalDisplayed;
pub use game_over::RestartButton;
pub use game_over::RestartButtonDisplayed;
pub use game_over::ScoreboardDisplayed;
pub use game_over::restart_requested;
pub use geometry::boxes_overlap;
pub use medal::Medal;
pub use medal::MedalType;
pub use medal::medal_for_score;
pub use pipe::Pipe;
pub use pipe::PipeStream;
pub use score::DigitSprite;
pub use score::Score;
pub use score::digit_count;
pub use score::rank_layout;
pub use scroll::BASE_RESET_POINT;
pub use scroll::scroll_display_x;
pub use scroll::scroll_wrap;
pub use state::GameState;
pub use switcher::Switcher;
