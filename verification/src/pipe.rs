//! The endless stream of pipe gates the bird flies through.
//!
//! A `Pipe` value describes one gate: a bottom pipe and, directly above the
//! gap, its flipped twin. The host draws two sprites per gate. Gates march
//! one pixel left per frame; a gate that leaves the screen is replaced by a
//! fresh one on the right with a newly drawn gap height.

use vstd::prelude::*;
use crate::rng::sample_range;
use crate::score::Score;
use crate::SCREEN_WIDTH;

verus! {

/// Sprite width of one pipe in pixels.
pub const PIPE_WIDTH: i32 = 52;

/// Sprite height of one pipe in pixels.
pub const PIPE_HEIGHT: i32 = 320;

/// Vertical gap between the bottom pipe and its flipped twin.
pub const PIPE_GAP: i32 = 80;

/// Horizontal distance between two neighbouring gates at spawn.
pub const PIPE_SPACING: i32 = 175;

/// A gate at or left of this centre is fully off screen and is retired:
/// half a screen plus half a pipe left of centre.
pub const PIPE_DESPAWN_X: i32 = -170;

/// A replacement gate enters here, half a screen plus half a pipe right
/// of centre.
pub const PIPE_RESPAWN_X: i32 = 170;

/// Lowest centre the bottom pipe's gap draw can take.
pub const PIPE_GAP_Y_MIN: i32 = -240;

/// The gap draw stays strictly below this centre.
pub const PIPE_GAP_Y_MAX: i32 = -50;

/// No gate is ever placed right of this; it bounds the arithmetic.
pub const PIPE_X_LIMIT: i32 = 200_000;

/// One pipe gate: both sprites share the centre `x`; `y` is the centre of
/// the bottom sprite and the flipped top sprite sits `PIPE_GAP` above it.
#[derive(Clone, Copy, Debug, PartialEq, Eq, Structural)]
pub struct Pipe {
    /// Centre of both sprites on the horizontal axis.
    pub x: i32,
    /// Centre of the bottom sprite.
    pub y: i32,
    /// Set once the bird has passed this gate, so it scores only once.
    pub hidden: bool,
}

impl Pipe {
    /// A gate keeps its gap inside the drawn band and its centre on the
    /// playing field.
    pub open spec fn wf(self) -> bool {
        &&& PIPE_GAP_Y_MIN <= self.y < PIPE_GAP_Y_MAX
        &&& PIPE_DESPAWN_X < self.x <= PIPE_X_LIMIT
    }

    /// Centre of the flipped top sprite.
    pub open spec fn top_y_spec(self) -> int {
        self.y + PIPE_GAP + PIPE_HEIGHT
    }

    /// A fresh gate at `x` with a gap height drawn at random from the
    /// allowed band; it has not been passed.
    pub fn new(x: i32) -> (p: Pipe)
        requires
            PIPE_DESPAWN_X < x <= PIPE_X_LIMIT,
        ensures
            p.wf(),
            p.x == x,
            !p.hidden,
    {
        Pipe { x, y: sample_range(PIPE_GAP_Y_MIN, PIPE_GAP_Y_MAX), hidden: false }
    }

    /// Centre of the flipped top sprite.
    pub fn top_y(&self) -> (r: i32)
        requires
            self.wf(),
        ensures
            r == self.top_y_spec(),
    {
        self.y + PIPE_GAP + PIPE_HEIGHT
    }

    /// Whether a bird box centred at `(bx, by)` touches this gate.
    pub open spec fn hits_spec(self, bx: int, by: int, bird_half_w: int, bird_half_h: int) -> bool {
        ||| crate::geometry::boxes_overlap_spec(
            bx,
            by,
            bird_half_w,
            bird_half_h,
            self.x as int,
            self.y as int,
            PIPE_WIDTH / 2,
            PIPE_HEIGHT / 2,
        )
        ||| crate::geometry::boxes_overlap_spec(
            bx,
            by,
            bird_half_w,
            bird_half_h,
            self.x as int,
            self.top_y_spec(),
            PIPE_WIDTH / 2,
            PIPE_HEIGHT / 2,
        )
    }

    /// Test the bird box against the bottom sprite and the top sprite.
    pub fn hits(&self, bx: i32, by: i32, bird_half_w: i32, bird_half_h: i32) -> (r: bool)
        requires
            self.wf(),
        ensures
            r == self.hits_spec(bx as int, by as int, bird_half_w as int, bird_half_h as int),
    {
        let top = self.top_y();
        crate::geometry::boxes_overlap(
            bx,
            by,
            bird_half_w,
            bird_half_h,
            self.x,
            self.y,
            PIPE_WIDTH / 2,
            PIPE_HEIGHT / 2,
        ) || crate::geometry::boxes_overlap(
            bx,
            by,
            bird_half_w,
            bird_half_h,
            self.x,
            top,
            PIPE_WIDTH / 2,
            PIPE_HEIGHT / 2,
        )
    }
}

/// A gate after one frame: one pixel further left.
pub open spec fn stepped(p: Pipe) -> Pipe {
    Pipe { x: (p.x - 1) as i32, ..p }
}

/// Whether a gate retires this frame: after its step it sits at or left of
/// the despawn line.
pub open spec fn retires(p: Pipe) -> bool {
    p.x - 1 <= PIPE_DESPAWN_X
}

/// The gates that survive one frame, stepped, in their old order.
pub open spec fn surviving(s: Seq<Pipe>) -> Seq<Pipe>
    decreases s.len(),
{
    if s.len() == 0 {
        s
    } else {
        surviving(s.drop_last()) + (if retires(s.last()) {
            Seq::<Pipe>::empty()
        } else {
            seq![stepped(s.last())]
        })
    }
}

/// How many gates retire this frame.
pub open spec fn retired_count(s: Seq<Pipe>) -> nat
    decreases s.len(),
{
    if s.len() == 0 {
        0
    } else {
        retired_count(s.drop_last()) + (if retires(s.last()) {
            1nat
        } else {
            0nat
        })
    }
}

/// Survivors and retirees of a frame account for every gate.
pub proof fn lemma_surviving_len(s: Seq<Pipe>)
    ensures
        surviving(s).len() + retired_count(s) == s.len(),
    decreases s.len(),
{
    if s.len() > 0 {
        lemma_surviving_len(s.drop_last());
    }
}

/// Whether the bird, whose front edge is at `bx + half width`, passes an
/// unscored gate.
pub open spec fn can_pass(p: Pipe, bird_front: int) -> bool {
    bird_front > p.x && !p.hidden
}

/// A gate marked as passed can never score again, whatever the bird
/// does: scoring each gate at most once rests on this.
pub proof fn lemma_marked_gate_never_scores(p: Pipe, bird_front: int)
    ensures
        !can_pass((Pipe { hidden: true, ..p }), bird_front),
{
}

/// Neighbouring gates of a spawn batch always sit one spacing apart.
pub proof fn lemma_spawn_spacing(first_time: bool, i: int)
    ensures
        PipeStream::spawn_x_spec(first_time, i + 1) - PipeStream::spawn_x_spec(first_time, i)
            == PIPE_SPACING,
{
}

/// The stream of gates currently alive, oldest (leftmost spawned) first.
pub struct PipeStream {
    /// The gates, in spawn order.
    pub pipes: Vec<Pipe>,
}

impl PipeStream {
    /// Every gate of the stream is well formed.
    pub open spec fn wf(self) -> bool {
        forall|i: int| 0 <= i < self.pipes@.len() ==> #[trigger] self.pipes@[i].wf()
    }

    /// The spawn centre of gate `i` of a batch: the first sits half a pipe
    /// beyond the screen edge (a whole screen further at the very first
    /// spawn), later ones follow at the fixed spacing.
    pub open spec fn spawn_x_spec(first_time: bool, i: int) -> int {
        (if first_time {
            SCREEN_WIDTH as int
        } else {
            SCREEN_WIDTH / 2
        }) + PIPE_WIDTH / 2 + PIPE_SPACING * i
    }

    /// Spawn a batch of gates with freshly drawn gaps.
    pub fn spawn(count: usize, first_time: bool) -> (r: PipeStream)
        requires
            count <= 1000,
        ensures
            r.wf(),
            r.pipes@.len() == count,
            forall|i: int|
                0 <= i < count ==> #[trigger] r.pipes@[i].x == Self::spawn_x_spec(first_time, i)
                    && !r.pipes@[i].hidden,
    {
        let start: i32 = if first_time {
            SCREEN_WIDTH
        } else {
            SCREEN_WIDTH / 2
        };
        let mut pipes: Vec<Pipe> = Vec::new();
        let mut i: usize = 0;
        while i < count
            invariant
                count <= 1000,
                start == (if first_time {
                    SCREEN_WIDTH as int
                } else {
                    SCREEN_WIDTH / 2
                }),
                i <= count,
                pipes@.len() == i,
                forall|j: int| 0 <= j < i ==> #[trigger] pipes@[j].wf(),
                forall|j: int|
                    0 <= j < i ==> #[trigger] pipes@[j].x == Self::spawn_x_spec(first_time, j)
                        && !pipes@[j].hidden,
            decreases count - i,
        {
            let x: i32 = start + PIPE_WIDTH / 2 + PIPE_SPACING * (i as i32);
            pipes.push(Pipe::new(x));
            i = i + 1;
        }
        PipeStream { pipes }
    }

    /// One frame: every gate steps one pixel left; gates that leave the
    /// screen retire, and for each a fresh gate enters on the right, so
    /// the stream keeps its size.
    pub fn advance(&mut self)
        requires
            old(self).wf(),
        ensures
            final(self).wf(),
            final(self).pipes@.len() == old(self).pipes@.len(),
            final(self).pipes@.take(surviving(old(self).pipes@).len() as int) == surviving(
                old(self).pipes@,
            ),
            forall|i: int|
                surviving(old(self).pipes@).len() <= i < final(self).pipes@.len() ==> (
                #[trigger] final(self).pipes@[i]).x == PIPE_RESPAWN_X
                    && !final(self).pipes@[i].hidden,
    {
        let ghost orig = self.pipes@;
        let mut kept: Vec<Pipe> = Vec::new();
        let mut retired: usize = 0;
        let mut i: usize = 0;
        while i < self.pipes.len()
            invariant
                self.pipes@ == orig,
                forall|j: int| 0 <= j < orig.len() ==> #[trigger] orig[j].wf(),
                i <= orig.len(),
                kept@ == surviving(orig.take(i as int)),
                retired == retired_count(orig.take(i as int)),
                kept@.len() + retired == i,
                forall|j: int| 0 <= j < kept@.len() ==> #[trigger] kept@[j].wf(),
            decreases orig.len() - i,
        {
            let p = self.pipes[i];
            proof {
                assert(orig[i as int].wf());
                assert(orig.take(i + 1).drop_last() =~= orig.take(i as int));
                assert(orig.take(i + 1).last() == orig[i as int]);
            }
            if p.x - 1 > PIPE_DESPAWN_X {
                kept.push(Pipe { x: p.x - 1, y: p.y, hidden: p.hidden });
                proof {
                    assert(kept@ =~= surviving(orig.take(i + 1)));
                }
            } else {
                retired = retired + 1;
                proof {
                    assert(kept@ =~= surviving(orig.take(i + 1)));
                }
            }
            i = i + 1;
        }
        proof {
            assert(orig.take(orig.len() as int) =~= orig);
            lemma_surviving_len(orig);
        }
        let ghost survivors = surviving(orig);
        let mut k: usize = 0;
        while k < retired
            invariant
                k <= retired,
                kept@.len() == survivors.len() + k,
                kept@.take(survivors.len() as int) == survivors,
                forall|j: int| 0 <= j < kept@.len() ==> #[trigger] kept@[j].wf(),
                forall|j: int|
                    survivors.len() <= j < kept@.len() ==> (#[trigger] kept@[j]).x
                        == PIPE_RESPAWN_X && !kept@[j].hidden,
            decreases retired - k,
        {
            kept.push(Pipe::new(PIPE_RESPAWN_X));
            proof {
                assert(kept@.take(survivors.len() as int) =~= survivors);
            }
            k = k + 1;
        }
        self.pipes = kept;
    }

    /// The scoring sweep of a frame: if the bird's front edge has passed
    /// an unscored gate, the first such gate is marked, the score counts
    /// one pass, and the sweep reports it. At most one gate scores per
    /// frame.
    pub fn record(&mut self, bird_x: i32, bird_half_w: i32, score: &mut Score) -> (passed: bool)
        requires
            old(self).wf(),
            old(score).wf(),
            old(score).current < u32::MAX,
            0 <= bird_half_w,
        ensures
            final(self).wf(),
            passed == (exists|i: int|
                0 <= i < old(self).pipes@.len() && can_pass(
                    old(self).pipes@[i],
                    bird_x + bird_half_w,
                )),
            passed ==> exists|i: int|
                {
                    &&& 0 <= i < old(self).pipes@.len()
                    &&& can_pass(old(self).pipes@[i], bird_x + bird_half_w)
                    &&& forall|j: int|
                        0 <= j < i ==> !can_pass(old(self).pipes@[j], bird_x + bird_half_w)
                    &&& final(self).pipes@ == old(self).pipes@.update(
                        i,
                        (Pipe { hidden: true, ..old(self).pipes@[i] }),
                    )
                },
            !passed ==> final(self).pipes@ == old(self).pipes@,
            final(score).wf(),
            passed ==> final(score).current == old(score).current + 1 && final(score).highest == (
            if old(score).current + 1 > old(score).highest {
                old(score).current + 1
            } else {
                old(score).highest as int
            }),
            !passed ==> *final(score) == *old(score),
    {
        let ghost orig = self.pipes@;
        let ghost front = bird_x + bird_half_w;
        let mut i: usize = 0;
        while i < self.pipes.len()
            invariant
                self.pipes@ == orig,
                orig == old(self).pipes@,
                forall|j: int| 0 <= j < orig.len() ==> #[trigger] orig[j].wf(),
                old(score).wf(),
                old(score).current < u32::MAX,
                *score == *old(score),
                front == bird_x + bird_half_w,
                0 <= bird_half_w,
                i <= orig.len(),
                forall|j: int| 0 <= j < i ==> !can_pass(orig[j], front),
            decreases orig.len() - i,
        {
            let p = self.pipes[i];
            if bird_x as i64 + bird_half_w as i64 > p.x as i64 && !p.hidden {
                proof {
                    assert(orig[i as int].wf());
                    assert(can_pass(orig[i as int], bird_x + bird_half_w));
                }
                let marked = Pipe { x: p.x, y: p.y, hidden: true };
                self.pipes.set(i, marked);
                score.on_pass();
                proof {
                    assert(self.pipes@ =~= orig.update(
                        i as int,
                        (Pipe { hidden: true, ..orig[i as int] }),
                    ));
                    assert forall|j: int| 0 <= j < self.pipes@.len() implies #[trigger] self
                        .pipes@[j].wf() by {
                        if j != i {
                            assert(orig[j].wf());
                        }
                    }
                }
                return true;
            }
            i = i + 1;
        }
        false
    }
}

} // verus!
