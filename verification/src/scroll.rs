//! The looping scroll of the ground strip and the background.
//!
//! Both sprites exist twice, one screen apart. A single anchor coordinate
//! walks left and wraps over a fixed period; the second copy draws one
//! period to the right, which makes the seam invisible.

use vstd::prelude::*;

verus! {

/// Pixels the ground strip scrolls before it wraps.
pub const BASE_RESET_POINT: i32 = 312;

/// One anchor step of a looping scroll: move `step` pixels left and wrap
/// back by one period when the anchor would leave `(-period, 0]`.
pub fn scroll_wrap(x: i32, step: i32, period: i32) -> (r: i32)
    requires
        0 < step <= period,
        -period < x <= 0,
    ensures
        -period < r <= 0,
        r == (if x - step > -period {
            x - step
        } else {
            x - step + period
        }),
{
    let diff: i64 = x as i64 - step as i64;
    if diff > -(period as i64) {
        diff as i32
    } else {
        (diff + period as i64) as i32
    }
}

/// Where a scroll copy draws: the secondary copy sits one period to the
/// right of the anchor.
pub fn scroll_display_x(x: i32, secondary: bool, period: i32) -> (r: i32)
    requires
        0 < period,
        -period < x <= 0,
    ensures
        r == (if secondary {
            x + period
        } else {
            x as int
        }),
{
    if secondary {
        x + period
    } else {
        x
    }
}

/// The screen never shows a gap: wherever the anchor is in its wrap
/// interval, every screen column within half a sprite of the centre is
/// covered by the primary copy or by the secondary copy one period to the
/// right. The sprite must be at least as wide as the period.
pub proof fn lemma_scroll_covers_screen(x: int, period: int, half_w: int, s: int)
    requires
        0 < period <= 2 * half_w,
        -period < x <= 0,
        -half_w <= s <= half_w,
    ensures
        (x - half_w <= s <= x + half_w) || (x + period - half_w <= s <= x + period + half_w),
{
}

} // verus!
