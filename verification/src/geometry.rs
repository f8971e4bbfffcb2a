//! Axis-aligned overlap tests on the integer pixel grid.
//!
//! Every sprite in the game has even width and height, so a box is described
//! exactly by its centre and its half-extents in whole pixels.

use vstd::prelude::*;

verus! {

/// Two boxes, given by centre and half-extents, overlap when they meet on
/// both axes; touching edges count as overlap.
pub open spec fn boxes_overlap_spec(
    acx: int,
    acy: int,
    ahx: int,
    ahy: int,
    bcx: int,
    bcy: int,
    bhx: int,
    bhy: int,
) -> bool {
    &&& acx - ahx <= bcx + bhx
    &&& bcx - bhx <= acx + ahx
    &&& acy - ahy <= bcy + bhy
    &&& bcy - bhy <= acy + ahy
}

/// Overlap test for two axis-aligned boxes with centres `(acx, acy)` and
/// `(bcx, bcy)` and half-extents `(ahx, ahy)` and `(bhx, bhy)`.
pub fn boxes_overlap(
    acx: i32,
    acy: i32,
    ahx: i32,
    ahy: i32,
    bcx: i32,
    bcy: i32,
    bhx: i32,
    bhy: i32,
) -> (r: bool)
    ensures
        r == boxes_overlap_spec(
            acx as int,
            acy as int,
            ahx as int,
            ahy as int,
            bcx as int,
            bcy as int,
            bhx as int,
            bhy as int,
        ),
{
    let a_min_x: i64 = acx as i64 - ahx as i64;
    let a_max_x: i64 = acx as i64 + ahx as i64;
    let a_min_y: i64 = acy as i64 - ahy as i64;
    let a_max_y: i64 = acy as i64 + ahy as i64;
    let b_min_x: i64 = bcx as i64 - bhx as i64;
    let b_max_x: i64 = bcx as i64 + bhx as i64;
    let b_min_y: i64 = bcy as i64 - bhy as i64;
    let b_max_y: i64 = bcy as i64 + bhy as i64;
    a_min_x <= b_max_x && b_min_x <= a_max_x && a_min_y <= b_max_y && b_min_y <= a_max_y
}

/// Overlap does not depend on the order of the two boxes.
pub proof fn lemma_overlap_symmetric(
    acx: int,
    acy: int,
    ahx: int,
    ahy: int,
    bcx: int,
    bcy: int,
    bhx: int,
    bhy: int,
)
    ensures
        boxes_overlap_spec(acx, acy, ahx, ahy, bcx, bcy, bhx, bhy) == boxes_overlap_spec(
            bcx,
            bcy,
            bhx,
            bhy,
            acx,
            acy,
            ahx,
            ahy,
        ),
{
}

} // verus!
