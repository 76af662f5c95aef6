//! Verified core of a two-wheeled line-following vehicle simulation.
//!
//! All quantities are fixed-point integers: lengths are thousandths of a
//! pixel, angles are milliradians, times are milliseconds, and motor duty
//! values run from `0` (stopped) to `SCALE` (full speed).  Working over
//! integers keeps every computation exact, so the geometric queries, the
//! controller decisions and the kinematic integration all carry full
//! functional contracts.

use vstd::prelude::*;

pub mod car;
pub mod controller;
pub mod path;
pub mod trig;

verus! {

/// Fixed-point unit: `SCALE` fixed-point steps make one whole unit
/// (one pixel, one radian, or a duty cycle of one).
pub const SCALE: i64 = 1000;

/// Largest coordinate magnitude (in thousandths of a pixel) the geometry
/// accepts; keeps every intermediate product inside `i128`.
pub const COORD_LIMIT: i64 = 20_000_000;

/// Largest query radius `Path::intersects_circle` accepts.
pub const RADIUS_LIMIT: i64 = 1_000_000;

/// Lateral distance between the two line sensors, in thousandths of a pixel.
pub const SENSOR_DISTANCE: i64 = 100_000;

/// Radius of each circular line sensor, in thousandths of a pixel.
pub const SENSOR_RADIUS: i64 = 20_000;

/// Thickness of the drawn line: the sensor spacing minus one sensor
/// diameter, so a centered vehicle has both sensors just off the line.
pub const LINE_WIDTH: i64 = SENSOR_DISTANCE - 2 * SENSOR_RADIUS;

/// Half the line width; added to the query radius by `intersects_circle`.
pub const HALF_LINE_WIDTH: i64 = 30_000;

/// Truncated (round-toward-zero) division, the fixed-point quotient used
/// throughout the library.  `int` division is Euclidean, so the negative
/// case is phrased through the negated dividend.
pub open spec fn div_fx(a: int, b: int) -> int {
    if a >= 0 {
        a / b
    } else {
        -((-a) / b)
    }
}

/// Executable truncated division.
pub fn div_trunc(a: i64, b: i64) -> (q: i64)
    requires
        b > 0,
        a > i64::MIN,
    ensures
        q == div_fx(a as int, b as int),
{
    if a >= 0 {
        a / b
    } else {
        -((-a) / b)
    }
}

/// The quotient keeps the dividend's sign and never grows past it in
/// magnitude.
pub proof fn lemma_div_fx_bounds(a: int, b: int, m: int)
    requires
        b > 0,
        -m <= a <= m,
    ensures
        -m <= div_fx(a, b) <= m,
        a >= 0 ==> 0 <= div_fx(a, b),
        a <= 0 ==> div_fx(a, b) <= 0,
{
    if a >= 0 {
        vstd::arithmetic::div_mod::lemma_div_pos_is_pos(a, b);
        vstd::arithmetic::div_mod::lemma_div_nonincreasing(a, b);
    } else {
        vstd::arithmetic::div_mod::lemma_div_pos_is_pos(-a, b);
        vstd::arithmetic::div_mod::lemma_div_nonincreasing(-a, b);
    }
}

/// `v` clamped into `[lo, hi]`.
pub open spec fn clamp_spec(v: int, lo: int, hi: int) -> int {
    if v < lo {
        lo
    } else if v > hi {
        hi
    } else {
        v
    }
}

/// Executable clamp.
pub fn clamp_i64(v: i64, lo: i64, hi: i64) -> (r: i64)
    requires
        lo <= hi,
    ensures
        r == clamp_spec(v as int, lo as int, hi as int),
{
    if v < lo {
        lo
    } else if v > hi {
        hi
    } else {
        v
    }
}

} // verus!
