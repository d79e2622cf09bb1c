//! Fixed-point coordinates.
//!
//! Every coordinate, extent and speed is a whole number of ticks. One arena
//! unit, the distance from the centre of the arena to any of its four walls,
//! is `UNIT` ticks.

use vstd::prelude::*;

verus! {

/// Ticks in one arena unit.
pub const UNIT: i64 = 10_000;

/// Largest magnitude of a start coordinate, a half-extent or a speed.
pub const EXTENT_LIMIT: i64 = 1_000_000_000_000;

/// Largest magnitude of an offset: sixteen times `EXTENT_LIMIT`, so that a
/// ball put against a paddle that it touches is never beyond it.
pub const OFFSET_LIMIT: i64 = 16_000_000_000_000;

/// The magnitude of `x`.
pub open spec fn abs(x: int) -> int {
    if x < 0 {
        -x
    } else {
        x
    }
}

/// The magnitude of `x`, for every `x` whose magnitude is an `i64`.
pub fn magnitude(x: i64) -> (r: i64)
    requires
        x != i64::MIN,
    ensures
        r == abs(x as int),
{
    if x < 0 {
        -x
    } else {
        x
    }
}

} // verus!
