//! The checkerboard pattern of the ground plane.
//!
//! A ground hit point is reduced by the renderer to two cell coordinates:
//! the truncated distances `|x + 500|` and `|z + 10 * time|`. The pattern
//! repeats every `CELL_PERIOD` units along each axis; within a period the
//! first half and the second half take opposite colours, and the exact
//! midpoint of the `z` period belongs to neither side.
use vstd::prelude::*;

use crate::raster::Rgb;

verus! {

/// Length of one full period of the pattern along either axis.
pub const CELL_PERIOD: u32 = 20;

/// The boundary between the two halves of a period.
pub const CELL_HALF: u32 = 10;

/// Whether the cell at the given coordinates takes the first colour pair:
/// one coordinate sits strictly in the lower half of its period and the
/// other strictly in the upper half.
pub open spec fn checker_phase_spec(ix: int, iz: int) -> bool {
    let a = ix % 20;
    let b = iz % 20;
    (a < 10 && b > 10) || (a > 10 && b < 10)
}

/// Decides which of the two colour pairs the ground cell at `(ix, iz)` uses.
pub fn checker_phase(ix: u32, iz: u32) -> (r: bool)
    ensures
        r == checker_phase_spec(ix as int, iz as int),
{
    let a = ix % CELL_PERIOD;
    let b = iz % CELL_PERIOD;
    (a < CELL_HALF && b > CELL_HALF) || (a > CELL_HALF && b < CELL_HALF)
}

/// The colour near the camera of a ground cell: the first pair where the
/// phase holds, the second elsewhere. Farther away it fades to the sky.
pub open spec fn ground_near_color_spec(phase: bool) -> Rgb {
    if phase {
        Rgb { r: 120, g: 200, b: 255 }
    } else {
        Rgb { r: 200, g: 120, b: 255 }
    }
}

pub fn ground_near_color(phase: bool) -> (c: Rgb)
    ensures
        c == ground_near_color_spec(phase),
{
    if phase {
        Rgb::new(120, 200, 255)
    } else {
        Rgb::new(200, 120, 255)
    }
}

/// Whether row `y` of a raster `height` rows tall lies strictly below the
/// middle of the screen, where the ground plane can be seen.
pub fn in_lower_half(y: u32, height: u32) -> (r: bool)
    ensures
        r == (2 * y as int > height as int),
{
    (y as u64) * 2 > height as u64
}

/// Moving a whole period along `x` leaves the colour choice unchanged.
pub proof fn lemma_checker_period_x(ix: int, iz: int)
    requires
        ix >= 0,
        iz >= 0,
    ensures
        checker_phase_spec(ix + 20, iz) == checker_phase_spec(ix, iz),
{
    assert((ix + 20) % 20 == ix % 20);
}

/// Moving a whole period along `z` leaves the colour choice unchanged.
pub proof fn lemma_checker_period_z(ix: int, iz: int)
    requires
        ix >= 0,
        iz >= 0,
    ensures
        checker_phase_spec(ix, iz + 20) == checker_phase_spec(ix, iz),
{
    assert((iz + 20) % 20 == iz % 20);
}

/// Moving half a period along `x` swaps the colour pair, except where the
/// `z` coordinate sits on the midpoint of its period, or where one of the two
/// points lies on a cell boundary along `x` while `z` is in the lower half
/// (both points then take the second pair).
pub proof fn lemma_checker_alternates_x(ix: int, iz: int)
    requires
        ix >= 0,
        iz >= 0,
        iz % 20 != 10,
        !(ix % 10 == 0 && iz % 20 < 10),
    ensures
        checker_phase_spec(ix + 10, iz) != checker_phase_spec(ix, iz),
{
    assert((ix + 10) % 20 == (ix % 20 + 10) % 20);
}

/// Moving half a period along `z` swaps the colour pair, except where the
/// `x` coordinate sits on the midpoint of its period, or where one of the two
/// points lies on a cell boundary along `z` while `x` is in the lower half
/// (both points then take the second pair).
pub proof fn lemma_checker_alternates_z(ix: int, iz: int)
    requires
        ix >= 0,
        iz >= 0,
        ix % 20 != 10,
        !(iz % 10 == 0 && ix % 20 < 10),
    ensures
        checker_phase_spec(ix, iz + 10) != checker_phase_spec(ix, iz),
{
    assert((iz + 10) % 20 == (iz % 20 + 10) % 20);
}

} // verus!
