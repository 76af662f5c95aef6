//! Fixed-point sine and cosine on angles in milliradians.
//!
//! The half-turn is the integer `HALF_TURN` (pi in milliradians, rounded),
//! and on `[0, HALF_TURN]` the sine is the classical quadratic
//! approximation `4 x (pi - x) / pi^2`, scaled to `[0, SCALE]`.  The
//! approximation peaks at exactly `SCALE` and is extended to the full
//! circle by point symmetry.  Every function here is exact with respect to
//! its own specification; the only approximation is the choice of the
//! quadratic shape itself.

use vstd::arithmetic::div_mod::{
    lemma_div_is_ordered, lemma_div_pos_is_pos, lemma_fundamental_div_mod,
    lemma_fundamental_div_mod_converse,
};
use vstd::prelude::*;

use crate::SCALE;

verus! {

/// One quarter turn, in milliradians.
pub const QUARTER_TURN: i64 = 1571;

/// One half turn (pi), in milliradians.
pub const HALF_TURN: i64 = 3142;

/// One full turn, in milliradians; exactly twice `HALF_TURN` so that the
/// quadrant arithmetic stays exact.
pub const FULL_TURN: i64 = 6284;

/// `HALF_TURN` squared: the denominator of the quadratic approximation.
pub const SQ_HALF_TURN: i64 = 9_872_164;

/// Largest angle magnitude the trig functions accept.
pub const ANGLE_LIMIT: i64 = 1_000_000_000_000;

/// Quadratic sine approximation on `[0, HALF_TURN]`, scaled by `SCALE`:
/// `4 * SCALE * x * (HALF_TURN - x) / HALF_TURN^2`.
pub open spec fn sin_half_spec(x: int) -> int {
    (4 * SCALE * x * (HALF_TURN - x)) / (SQ_HALF_TURN as int)
}

/// Fixed-point sine of an angle in milliradians, in `[-SCALE, SCALE]`:
/// the angle is reduced to one turn, and the second half-turn mirrors the
/// first with opposite sign.
pub open spec fn sin_spec(angle: int) -> int {
    let x = angle % (FULL_TURN as int);
    if x <= HALF_TURN {
        sin_half_spec(x)
    } else {
        -sin_half_spec(x - HALF_TURN)
    }
}

/// Fixed-point cosine: the sine advanced by a quarter turn.
pub open spec fn cos_spec(angle: int) -> int {
    sin_spec(angle + QUARTER_TURN)
}

/// The quadratic approximation stays within `[0, SCALE]` on its domain.
pub proof fn lemma_sin_half_range(x: int)
    requires
        0 <= x <= HALF_TURN,
    ensures
        0 <= sin_half_spec(x) <= SCALE,
{
    let num = 4 * SCALE * x * (HALF_TURN - x);
    // The parabola x (HALF_TURN - x) is nonnegative on the domain and
    // peaks at the midpoint QUARTER_TURN + 1/2, i.e. at 1571 over the
    // integers, where it reaches 1571 * 1571 = 2_468_041.
    assert(0 <= num <= 9_872_164_000) by (nonlinear_arith)
        requires
            0 <= x <= 3142,
            num == 4 * 1000 * x * (3142 - x),
    ;
    lemma_div_pos_is_pos(num, SQ_HALF_TURN as int);
    lemma_div_is_ordered(num, 9_872_164_000, SQ_HALF_TURN as int);
    assert(9_872_164_000int / 9_872_164int == 1000);
}

/// Executable form of `sin_half_spec`.
fn sin_half(x: i64) -> (s: i64)
    requires
        0 <= x <= HALF_TURN,
    ensures
        s == sin_half_spec(x as int),
        0 <= s <= SCALE,
{
    proof {
        lemma_sin_half_range(x as int);
        assert(0 <= 4 * 1000 * x * (3142 - x) <= 9_872_164_000) by (nonlinear_arith)
            requires
                0 <= x <= 3142,
        ;
    }
    let num = 4 * SCALE * x * (HALF_TURN - x);
    num / SQ_HALF_TURN
}

/// Reduces an angle to `[0, FULL_TURN)`, the canonical representative of
/// its turn class (a Euclidean remainder).
fn reduce_angle(angle: i64) -> (r: i64)
    requires
        -ANGLE_LIMIT - QUARTER_TURN <= angle <= ANGLE_LIMIT + QUARTER_TURN,
    ensures
        0 <= r < FULL_TURN,
        r == (angle as int) % (FULL_TURN as int),
{
    if angle >= 0 {
        angle % FULL_TURN
    } else {
        let m = (-angle) % FULL_TURN;
        proof {
            lemma_fundamental_div_mod((-angle) as int, FULL_TURN as int);
            let q = ((-angle) as int) / (FULL_TURN as int);
            if m == 0 {
                lemma_fundamental_div_mod_converse(angle as int, FULL_TURN as int, -q, 0);
            } else {
                lemma_fundamental_div_mod_converse(
                    angle as int,
                    FULL_TURN as int,
                    -q - 1,
                    FULL_TURN - m,
                );
            }
        }
        if m == 0 {
            0
        } else {
            FULL_TURN - m
        }
    }
}

/// Fixed-point sine of an angle in milliradians.
pub fn sin_fx(angle: i64) -> (s: i64)
    requires
        -ANGLE_LIMIT - QUARTER_TURN <= angle <= ANGLE_LIMIT + QUARTER_TURN,
    ensures
        s == sin_spec(angle as int),
        -SCALE <= s <= SCALE,
{
    let x = reduce_angle(angle);
    if x <= HALF_TURN {
        sin_half(x)
    } else {
        -sin_half(x - HALF_TURN)
    }
}

/// Fixed-point cosine of an angle in milliradians.
pub fn cos_fx(angle: i64) -> (c: i64)
    requires
        -ANGLE_LIMIT <= angle <= ANGLE_LIMIT,
    ensures
        c == cos_spec(angle as int),
        -SCALE <= c <= SCALE,
{
    sin_fx(angle + QUARTER_TURN)
}

} // verus!
