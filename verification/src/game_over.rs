//! The game-over overlay: the sequence of the falling text, the rising
//! scoreboard, the medal, the bird's soul and finally the restart button,
//! and the hit test of that button.

use vstd::prelude::*;

verus! {

/// Marker for the restart button sprite.
pub struct RestartButton;

/// Event: the scoreboard is in place.
pub struct ScoreboardDisplayed;

/// Event: the medal is in place (or there was none to show).
pub struct MedalDisplayed;

/// Event: the restart button is in place.
pub struct RestartButtonDisplayed;

/// Event: the game-over text is in place.
pub struct GameOverTextDisplayed;

/// Left edge of the restart button's click area, in window coordinates.
pub const RESTART_BTN_LEFT: i32 = 90;

/// Right edge of the restart button's click area.
pub const RESTART_BTN_RIGHT: i32 = 200;

/// Upper edge of the restart button's click area (window y grows down).
pub const RESTART_BTN_TOP: i32 = 273;

/// Lower edge of the restart button's click area.
pub const RESTART_BTN_BOTTOM: i32 = 310;

/// Row where the game-over text comes to rest after its bounce.
pub const GAME_OVER_TEXT_REST_Y: i32 = 156;

/// Row where the scoreboard starts, below the screen.
pub const SCOREBOARD_START_Y: i32 = -199;

/// Row where the scoreboard's climb is clamped; reaching it finishes the
/// scoreboard stage.
pub const SCOREBOARD_TOP_Y: i32 = 57;

/// Centre of the medal slot on the scoreboard.
pub const MEDAL_X: i32 = -65;

/// Vertical centre of the medal slot.
pub const MEDAL_Y: i32 = 47;

/// A cursor position in whole window pixels.
#[derive(Clone, Copy, Debug, PartialEq, Eq, Structural)]
pub struct CursorPos {
    pub x: i32,
    pub y: i32,
}

/// Whether a cursor position lands strictly inside the restart button.
pub open spec fn cursor_on_restart_spec(c: CursorPos) -> bool {
    &&& c.y > RESTART_BTN_TOP
    &&& c.y < RESTART_BTN_BOTTOM
    &&& c.x > RESTART_BTN_LEFT
    &&& c.x < RESTART_BTN_RIGHT
}

/// Whether the player asked for a restart this frame: the button must be
/// on screen, and either the flap key was pressed or a click landed on the
/// button.
pub fn restart_requested(
    button_displayed: bool,
    key_pressed: bool,
    mouse_pressed: bool,
    cursors: &Vec<CursorPos>,
) -> (r: bool)
    ensures
        r == (button_displayed && (key_pressed || (mouse_pressed && exists|i: int|
            0 <= i < cursors@.len() && cursor_on_restart_spec(cursors@[i])))),
{
    if !button_displayed {
        return false;
    }
    if key_pressed {
        return true;
    }
    if !mouse_pressed {
        return false;
    }
    let mut i: usize = 0;
    while i < cursors.len()
        invariant
            button_displayed,
            !key_pressed,
            mouse_pressed,
            0 <= i <= cursors@.len(),
            forall|j: int| 0 <= j < i ==> !cursor_on_restart_spec(cursors@[j]),
        decreases cursors@.len() - i,
    {
        let c = cursors[i];
        if c.y > RESTART_BTN_TOP && c.y < RESTART_BTN_BOTTOM && c.x > RESTART_BTN_LEFT && c.x
            < RESTART_BTN_RIGHT {
            assert(exists|j: int|
                0 <= j < cursors@.len() && cursor_on_restart_spec(cursors@[j])) by {
                assert(cursor_on_restart_spec(cursors@[i as int]));
            }
            return true;
        }
        i = i + 1;
    }
    false
}

/// Progress of the game-over overlay. Each flag records that a stage has
/// finished; the stages unlock one another in a fixed order.
pub struct GameOverSequence {
    /// The game-over text has settled after its bounce.
    pub text_done: bool,
    /// The scoreboard has risen to its resting place.
    pub scoreboard_done: bool,
    /// The bird's death has been observed.
    pub death_seen: bool,
    /// The medal has finished scaling in, or there was none to show.
    pub medal_done: bool,
    /// The soul has risen to heaven.
    pub soul_done: bool,
    /// The restart button has been made visible.
    pub button_shown: bool,
}

impl GameOverSequence {
    /// Later stages never finish before the ones they wait on.
    pub open spec fn wf(self) -> bool {
        &&& self.button_shown ==> self.soul_done
        &&& self.soul_done ==> self.medal_done
        &&& self.medal_done ==> self.text_done && self.scoreboard_done && self.death_seen
    }

    /// All the stages the medal waits on have finished.
    pub open spec fn medal_gates_open(self) -> bool {
        self.text_done && self.scoreboard_done && self.death_seen
    }

    /// A fresh overlay with every stage still pending.
    pub fn new() -> (r: GameOverSequence)
        ensures
            r.wf(),
            !r.text_done,
            !r.scoreboard_done,
            !r.death_seen,
            !r.medal_done,
            !r.soul_done,
            !r.button_shown,
    {
        GameOverSequence {
            text_done: false,
            scoreboard_done: false,
            death_seen: false,
            medal_done: false,
            soul_done: false,
            button_shown: false,
        }
    }

    /// The game-over text came to rest on its final row.
    pub fn on_text_settled(&mut self) -> (ev: Option<GameOverTextDisplayed>)
        requires
            old(self).wf(),
        ensures
            final(self).wf(),
            *final(self) == (GameOverSequence { text_done: true, ..*old(self) }),
            ev.is_some(),
    {
        self.text_done = true;
        Some(GameOverTextDisplayed)
    }

    /// The scoreboard reached the top of its climb.
    pub fn on_scoreboard_top(&mut self) -> (ev: Option<ScoreboardDisplayed>)
        requires
            old(self).wf(),
        ensures
            final(self).wf(),
            *final(self) == (GameOverSequence { scoreboard_done: true, ..*old(self) }),
            ev.is_some(),
    {
        self.scoreboard_done = true;
        Some(ScoreboardDisplayed)
    }

    /// The bird's death was observed.
    pub fn on_death(&mut self)
        requires
            old(self).wf(),
        ensures
            final(self).wf(),
            *final(self) == (GameOverSequence { death_seen: true, ..*old(self) }),
    {
        self.death_seen = true;
    }

    /// One frame of the medal stage. It waits for the text, the scoreboard
    /// and the death; then it announces the medal as soon as the scaling
    /// animation finishes, or at once when no medal was earned.
    pub fn medal_step(&mut self, has_medal: bool, scale_finished: bool) -> (ev: Option<
        MedalDisplayed,
    >)
        requires
            old(self).wf(),
        ensures
            final(self).wf(),
            ev.is_some() == (old(self).medal_gates_open() && (!has_medal || scale_finished)),
            *final(self) == (GameOverSequence {
                medal_done: old(self).medal_done || (old(self).medal_gates_open() && (!has_medal
                    || scale_finished)),
                ..*old(self)
            }),
    {
        if self.text_done && self.scoreboard_done && self.death_seen && (!has_medal
            || scale_finished) {
            self.medal_done = true;
            Some(MedalDisplayed)
        } else {
            None
        }
    }

    /// One frame of the soul stage: after the medal it waits for the soul
    /// to reach heaven.
    pub fn soul_step(&mut self, reached_heaven: bool) -> (done: bool)
        requires
            old(self).wf(),
        ensures
            final(self).wf(),
            done == (old(self).medal_done && reached_heaven),
            *final(self) == (GameOverSequence {
                soul_done: old(self).soul_done || (old(self).medal_done && reached_heaven),
                ..*old(self)
            }),
    {
        if self.medal_done && reached_heaven {
            self.soul_done = true;
            true
        } else {
            false
        }
    }

    /// One frame of the button stage: once the soul is in heaven the
    /// restart button is shown and announced.
    pub fn button_step(&mut self) -> (ev: Option<RestartButtonDisplayed>)
        requires
            old(self).wf(),
        ensures
            final(self).wf(),
            ev.is_some() == old(self).soul_done,
            *final(self) == (GameOverSequence {
                button_shown: old(self).button_shown || old(self).soul_done,
                ..*old(self)
            }),
    {
        if self.soul_done {
            self.button_shown = true;
            Some(RestartButtonDisplayed)
        } else {
            None
        }
    }
}

/// Once the restart button is on screen, every earlier stage of the
/// overlay has finished.
pub proof fn lemma_overlay_order(s: GameOverSequence)
    requires
        s.wf(),
        s.button_shown,
    ensures
        s.soul_done,
        s.medal_done,
        s.text_done,
        s.scoreboard_done,
        s.death_seen,
{
}

} // verus!
