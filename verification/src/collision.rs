//! The per-frame collision sweep: bird against ground and pipes.

use vstd::prelude::*;
use crate::bird::BIRD_HEIGHT;
use crate::bird::BIRD_WIDTH;
use crate::pipe::PipeStream;

verus! {

/// What the collision sweep of one frame found.
#[derive(Clone, Copy, Debug, PartialEq, Eq, Structural)]
pub struct CollisionOutcome {
    /// The bird's vertical centre after the sweep: snapped onto the
    /// ground if it hit it, unchanged otherwise.
    pub resting_y: i32,
    /// The bird touched the ground; it dies and lies there.
    pub ground: bool,
    /// The bird's box, at its resting height, touches a pipe. Only
    /// checked while playing, so a bird falling dead inside a pipe does
    /// not retrigger it.
    pub pipe: bool,
}

/// Whether the bird's box touches any gate of the stream.
fn hits_any_pipe(pipes: &PipeStream, bird_x: i32, bird_y: i32) -> (r: bool)
    requires
        pipes.wf(),
    ensures
        r == exists|i: int|
            0 <= i < pipes.pipes@.len() && #[trigger] pipes.pipes@[i].hits_spec(
                bird_x as int,
                bird_y as int,
                BIRD_WIDTH / 2,
                BIRD_HEIGHT / 2,
            ),
{
    let mut i: usize = 0;
    while i < pipes.pipes.len()
        invariant
            pipes.wf(),
            i <= pipes.pipes@.len(),
            forall|j: int|
                0 <= j < i ==> !(#[trigger] pipes.pipes@[j].hits_spec(
                    bird_x as int,
                    bird_y as int,
                    BIRD_WIDTH / 2,
                    BIRD_HEIGHT / 2,
                )),
        decreases pipes.pipes@.len() - i,
    {
        let p = pipes.pipes[i];
        if p.hits(bird_x, bird_y, BIRD_WIDTH / 2, BIRD_HEIGHT / 2) {
            proof {
                assert(pipes.pipes@[i as int].hits_spec(
                    bird_x as int,
                    bird_y as int,
                    BIRD_WIDTH / 2,
                    BIRD_HEIGHT / 2,
                ));
            }
            return true;
        }
        i = i + 1;
    }
    false
}

/// Sweep one frame: first the ground test, which may snap the bird onto
/// the ground, then — only while playing — every pipe gate against the
/// bird's box at its resting height.
pub fn check_collision(
    bird_x: i32,
    bird_y: i32,
    base_collider_pos: i32,
    pipes: &PipeStream,
    playing: bool,
) -> (r: CollisionOutcome)
    requires
        pipes.wf(),
        base_collider_pos + BIRD_HEIGHT / 2 <= i32::MAX,
    ensures
        r.ground == (bird_y - BIRD_HEIGHT / 2 <= base_collider_pos),
        r.resting_y == (if r.ground {
            base_collider_pos + BIRD_HEIGHT / 2
        } else {
            bird_y as int
        }),
        r.pipe == (playing && exists|i: int|
            0 <= i < pipes.pipes@.len() && #[trigger] pipes.pipes@[i].hits_spec(
                bird_x as int,
                r.resting_y as int,
                BIRD_WIDTH / 2,
                BIRD_HEIGHT / 2,
            )),
{
    let ground = bird_y as i64 - (BIRD_HEIGHT / 2) as i64 <= base_collider_pos as i64;
    let resting_y: i32 = if ground {
        base_collider_pos + BIRD_HEIGHT / 2
    } else {
        bird_y
    };
    let pipe_hit = if playing {
        hits_any_pipe(pipes, bird_x, resting_y)
    } else {
        false
    };
    CollisionOutcome { resting_y, ground, pipe: pipe_hit }
}

} // verus!
