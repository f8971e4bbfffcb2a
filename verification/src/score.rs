//! Score keeping and the digit sprites that show the running score.

use vstd::prelude::*;

verus! {

/// Width of one digit sprite in pixels.
pub const SCORE_DIGIT_WIDTH: i32 = 24;

/// Height of one digit sprite in pixels.
pub const SCORE_DIGIT_HEIGHT: i32 = 36;

/// Vertical centre of the digit row: ten pixels of margin and half a
/// digit below the screen's top edge.
pub const SCORE_ROW_Y: i32 = 228;

/// The running score of the round and the best score seen so far.
pub struct Score {
    /// Pipes passed in the current round.
    pub current: u32,
    /// Best score over all rounds, including this one.
    pub highest: u32,
}

impl Score {
    /// The best score is never behind the running one.
    pub open spec fn wf(self) -> bool {
        self.current <= self.highest
    }

    /// A new round starts from zero; the best score carries over.
    pub fn new_round(&mut self)
        requires
            old(self).wf(),
        ensures
            final(self).wf(),
            final(self).current == 0,
            final(self).highest == old(self).highest,
    {
        self.current = 0;
    }

    /// The bird passed a pipe: one more point, and the best score is
    /// caught up if the round just beat it.
    pub fn on_pass(&mut self)
        requires
            old(self).wf(),
            old(self).current < u32::MAX,
        ensures
            final(self).wf(),
            final(self).current == old(self).current + 1,
            final(self).highest == (if old(self).current + 1 > old(self).highest {
                old(self).current + 1
            } else {
                old(self).highest as int
            }),
            final(self).highest >= old(self).highest,
    {
        self.current = self.current + 1;
        if self.current > self.highest {
            self.highest = self.current;
        }
    }
}

impl Default for Score {
    /// Before the first round both counters are zero.
    fn default() -> (r: Score)
        ensures
            r.wf(),
            r.current == 0,
            r.highest == 0,
    {
        Score { current: 0, highest: 0 }
    }
}

/// How many decimal digits a score has; zero is written with one digit.
pub open spec fn spec_digit_count(n: nat) -> nat
    decreases n,
{
    if n < 10 {
        1
    } else {
        1 + spec_digit_count(n / 10)
    }
}

/// Count the decimal digits of a score.
pub fn digit_count(n: u32) -> (c: u32)
    ensures
        c == spec_digit_count(n as nat),
        1 <= c <= 10,
{
    proof {
        lemma_pow10_ten();
        lemma_digit_count_bound(n as nat, 10);
    }
    let mut m: u32 = n;
    let mut c: u32 = 1;
    while m >= 10
        invariant
            spec_digit_count(n as nat) == c - 1 + spec_digit_count(m as nat),
            1 <= c <= spec_digit_count(n as nat),
            spec_digit_count(n as nat) <= 10,
        decreases m,
    {
        proof {
            lemma_digit_count_pos((m / 10) as nat);
        }
        m = m / 10;
        c = c + 1;
    }
    c
}

/// Every score, zero included, has at least one digit.
proof fn lemma_digit_count_pos(n: nat)
    ensures
        spec_digit_count(n) >= 1,
    decreases n,
{
    if n >= 10 {
        lemma_digit_count_pos(n / 10);
    }
}

/// Ten raised to a small power, for bounding the digit count.
pub open spec fn pow10(k: int) -> int
    decreases k,
{
    if k <= 0 {
        1
    } else {
        10 * pow10(k - 1)
    }
}

proof fn lemma_pow10_pos(k: int)
    ensures
        pow10(k) >= 1,
    decreases k,
{
    if k > 0 {
        lemma_pow10_pos(k - 1);
    }
}

proof fn lemma_pow10_ten()
    ensures
        pow10(10) == 10_000_000_000,
{
    reveal_with_fuel(pow10, 11);
}

/// A score below ten to the `k` has at most `k` digits.
proof fn lemma_digit_count_bound(n: nat, k: nat)
    requires
        k >= 1,
        n < pow10(k as int),
    ensures
        spec_digit_count(n) <= k,
    decreases k,
{
    if n >= 10 {
        lemma_pow10_pos(k as int - 1);
        assert(n / 10 < pow10(k as int - 1)) by (nonlinear_arith)
            requires
                n < 10 * pow10(k as int - 1),
                pow10(k as int - 1) >= 1,
        ;
        lemma_digit_count_bound(n / 10, (k - 1) as nat);
    }
}

/// One digit sprite of the running score: which digit texture to show and
/// the horizontal offset of its centre from mid-screen.
#[derive(Clone, Copy, Debug, PartialEq, Eq, Structural)]
pub struct DigitSprite {
    /// The decimal digit to draw, below ten.
    pub digit: u32,
    /// Horizontal centre offset in pixels.
    pub x: i32,
}

/// Where the units, tens and hundreds sprites go for a running score, and
/// which digit each shows. Ranks that a short score does not need stay
/// empty, as does everything for scores of four digits and more, which the
/// three sprite slots cannot show.
pub fn rank_layout(current: u32) -> (r: (Option<DigitSprite>, Option<DigitSprite>, Option<
    DigitSprite,
>))
    ensures
        spec_digit_count(current as nat) == 1 ==> r == (
            Some((DigitSprite { digit: current % 10, x: 0 })),
            None::<DigitSprite>,
            None::<DigitSprite>,
        ),
        spec_digit_count(current as nat) == 2 ==> r == (
            Some((DigitSprite { digit: current % 10, x: 12 })),
            Some((DigitSprite { digit: current / 10, x: -12i32 })),
            None::<DigitSprite>,
        ),
        spec_digit_count(current as nat) == 3 ==> r == (
            Some((DigitSprite { digit: current % 10, x: 25 })),
            Some((DigitSprite { digit: current % 100 / 10, x: 0 })),
            Some((DigitSprite { digit: current / 100, x: -25i32 })),
        ),
        spec_digit_count(current as nat) > 3 ==> r == (
            None::<DigitSprite>,
            None::<DigitSprite>,
            None::<DigitSprite>,
        ),
{
    proof {
        lemma_digit_count_bands(current as nat);
    }
    let digits = digit_count(current);
    if digits == 1 {
        (Some(DigitSprite { digit: current % 10, x: 0 }), None, None)
    } else if digits == 2 {
        (
            Some(DigitSprite { digit: current % 10, x: 12 }),
            Some(DigitSprite { digit: current / 10, x: -12i32 }),
            None,
        )
    } else if digits == 3 {
        (
            Some(DigitSprite { digit: current % 10, x: 25 }),
            Some(DigitSprite { digit: current % 100 / 10, x: 0 }),
            Some(DigitSprite { digit: current / 100, x: -25i32 }),
        )
    } else {
        (None, None, None)
    }
}

/// The three displayed digits spell the score itself: for any score up to
/// three digits, hundreds, tens and units recombine to the score.
pub proof fn lemma_digits_reconstruct(n: nat)
    requires
        n < 1000,
    ensures
        (n / 100) * 100 + (n % 100 / 10) * 10 + n % 10 == n,
{
    assert((n / 100) * 100 + (n % 100 / 10) * 10 + n % 10 == n) by (nonlinear_arith)
        requires
            n < 1000,
    ;
}

/// The digit count of a score follows its size band.
pub proof fn lemma_digit_count_bands(n: nat)
    ensures
        (n < 10) == (spec_digit_count(n) == 1),
        (10 <= n < 100) == (spec_digit_count(n) == 2),
        (100 <= n < 1000) == (spec_digit_count(n) == 3),
        (n >= 1000) == (spec_digit_count(n) >= 4),
    decreases n,
{
    if n >= 10 {
        lemma_digit_count_bands(n / 10);
    }
}

} // verus!
