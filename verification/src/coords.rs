//! Conversions between pixel space and (rank, file) board indices.
//!
//! `square_from_pixel` performs no bounds clamping: callers must
//! validate the result against the 8x8 board (see
//! [`crate::board::Square::new_checked`]) before acting on it.

use vstd::prelude::*;
use crate::board::Square;

verus! {

/// Top-left pixel of a square: `x = file * cell_w`, `y = rank * cell_h`.
pub open spec fn spec_pixel_from_square(s: Square, cell_w: int, cell_h: int) -> (int, int) {
    (s.file * cell_w, s.rank * cell_h)
}

/// Raw board indices of a pixel: `rank = y / cell_h`, `file = x / cell_w`
/// (flooring division); the result may lie outside the board.
pub open spec fn spec_square_from_pixel(x: int, y: int, cell_w: int, cell_h: int) -> (int, int) {
    (y / cell_h, x / cell_w)
}

/// Pixel position of a square's top-left corner, used to place tiles,
/// overlays and sprites.
pub fn pixel_from_square(s: Square, cell_w: u32, cell_h: u32) -> (p: (u32, u32))
    requires
        s.wf(),
        8 * cell_w <= u32::MAX,
        8 * cell_h <= u32::MAX,
    ensures
        (p.0 as int, p.1 as int) == spec_pixel_from_square(s, cell_w as int, cell_h as int),
{
    proof {
        vstd::arithmetic::mul::lemma_mul_inequality(s.file as int, 7, cell_w as int);
        vstd::arithmetic::mul::lemma_mul_inequality(s.rank as int, 7, cell_h as int);
    }
    ((s.file as u32) * cell_w, (s.rank as u32) * cell_h)
}

/// Board indices under a pixel. The result is unclamped; a click off
/// the board yields indices at or above 8, which callers must reject.
pub fn square_from_pixel(x: u32, y: u32, cell_w: u32, cell_h: u32) -> (rf: (u32, u32))
    requires
        cell_w > 0,
        cell_h > 0,
    ensures
        (rf.0 as int, rf.1 as int) == spec_square_from_pixel(
            x as int,
            y as int,
            cell_w as int,
            cell_h as int,
        ),
{
    (y / cell_h, x / cell_w)
}

/// Round trip: for any on-board square and positive cell sizes, mapping
/// the square to its top-left pixel and that pixel back to board
/// indices yields the same (rank, file) pair back.
pub proof fn lemma_pixel_round_trip(s: Square, cell_w: int, cell_h: int)
    requires
        s.wf(),
        cell_w > 0,
        cell_h > 0,
    ensures
        ({
            let (x, y) = spec_pixel_from_square(s, cell_w, cell_h);
            spec_square_from_pixel(x, y, cell_w, cell_h) == (s.rank as int, s.file as int)
        }),
{
    vstd::arithmetic::div_mod::lemma_div_by_multiple(s.file as int, cell_w);
    vstd::arithmetic::div_mod::lemma_div_by_multiple(s.rank as int, cell_h);
}

} // verus!
