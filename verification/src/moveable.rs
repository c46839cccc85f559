//! Character position and movement: exact integer coordinates, the arena
//! bounds, and the clamped constant-speed position step.
//!
//! Coordinates are measured in thousandths of a pixel (millipixels) so that a
//! constant-speed step over an elapsed time in milliseconds is exact integer
//! arithmetic: a speed of `s` pixels per second is `s` millipixels per
//! millisecond.

use vstd::prelude::*;

verus! {

/// Highest y coordinate a character may occupy, in millipixels.
pub const CHARACTER_TOP_BOUND: i64 = 114_000;

/// Lowest y coordinate a character may occupy, in millipixels.
pub const CHARACTER_BOTTOM_BOUND: i64 = -121_000;

/// Lowest x coordinate a character may occupy, in millipixels.
pub const CHARACTER_LEFT_BOUND: i64 = -227_000;

/// Highest x coordinate a character may occupy, in millipixels.
pub const CHARACTER_RIGHT_BOUND: i64 = 227_000;

/// Movement speed of a character: 300 pixels per second, which is 300
/// millipixels per millisecond.
pub const CHARACTER_SPEED: i64 = 300;

/// `v` clamped to the inclusive interval `[lo, hi]`.
pub open spec fn clamp_spec(v: int, lo: int, hi: int) -> int {
    if v < lo {
        lo
    } else if v > hi {
        hi
    } else {
        v
    }
}

/// The coordinate reached by moving from `coord` at the character speed for
/// `elapsed_ms` milliseconds, towards the upper bound when `towards_upper` is
/// true and towards the lower bound otherwise, clamped to `[lo, hi]`.
pub open spec fn moved_coord_spec(coord: int, towards_upper: bool, elapsed_ms: int, lo: int, hi: int) -> int {
    if towards_upper {
        clamp_spec(coord + CHARACTER_SPEED * elapsed_ms, lo, hi)
    } else {
        clamp_spec(coord - CHARACTER_SPEED * elapsed_ms, lo, hi)
    }
}

/// A 2D coordinate in millipixels. The y axis points away from the camera,
/// the x axis points right.
#[derive(Clone, Copy, Debug, PartialEq, Eq, Structural)]
pub struct Position {
    pub x: i64,
    pub y: i64,
}

impl Position {
    /// The position lies within the arena bounds. Movement clamps the moved
    /// axis, so a character that starts inside the arena stays inside it.
    pub open spec fn wf(self) -> bool {
        &&& CHARACTER_LEFT_BOUND <= self.x <= CHARACTER_RIGHT_BOUND
        &&& CHARACTER_BOTTOM_BOUND <= self.y <= CHARACTER_TOP_BOUND
    }

    /// A position from plain millipixel coordinates.
    pub fn new(x: i64, y: i64) -> (p: Position)
        ensures
            p.x == x,
            p.y == y,
    {
        Position { x, y }
    }
}

/// Move `coord` at the character speed for `elapsed_ms` milliseconds towards
/// the upper bound (when `towards_upper` is true) or the lower bound, and
/// clamp the result to `[lo, hi]`.
pub fn move_coord(coord: i64, towards_upper: bool, elapsed_ms: u32, lo: i64, hi: i64) -> (r: i64)
    requires
        lo <= coord <= hi,
        i64::MIN <= coord - CHARACTER_SPEED * elapsed_ms,
        coord + CHARACTER_SPEED * elapsed_ms <= i64::MAX,
    ensures
        r == moved_coord_spec(coord as int, towards_upper, elapsed_ms as int, lo as int, hi as int),
        lo <= r <= hi,
{
    let delta: i64 = CHARACTER_SPEED * (elapsed_ms as i64);
    let moved: i64 = if towards_upper {
        coord + delta
    } else {
        coord - delta
    };
    if moved < lo {
        lo
    } else if moved > hi {
        hi
    } else {
        moved
    }
}

/// A coordinate that already sits at the bound it is moving towards does not
/// move: the arena clamp holds it in place for any elapsed time.
pub proof fn lemma_move_clamped_at_bound(coord: int, towards_upper: bool, elapsed_ms: int, lo: int, hi: int)
    requires
        lo <= hi,
        0 <= elapsed_ms,
        towards_upper ==> coord == hi,
        !towards_upper ==> coord == lo,
    ensures
        moved_coord_spec(coord, towards_upper, elapsed_ms, lo, hi) == coord,
{
    assert(CHARACTER_SPEED * elapsed_ms >= 0) by (nonlinear_arith)
        requires 0 <= elapsed_ms;
}

} // verus!
