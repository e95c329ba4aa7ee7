//! Fixed-point lengths and grid snapping.
//!
//! Every length and coordinate of the canvas is an `i64` counting hundredths of
//! a logical unit (one logical unit is one pointer pixel). Pointer input arrives
//! in whole pixels and is snapped to the nearest grid line before use.

use vstd::prelude::*;

verus! {

/// Fixed-point steps per logical unit.
pub const UNIT: i64 = 100;

/// Grid spacing in logical units.
pub const GRID_SIZE: i64 = 25;

/// Grid spacing in fixed-point steps.
pub const GRID_STEP: i64 = GRID_SIZE * UNIT;

/// Horizontal distance, in pixels, from the viewport's left edge to the canvas.
pub const ORIGIN_X: i32 = 247;

/// Vertical distance, in pixels, from the viewport's top edge to the canvas.
pub const ORIGIN_Y: i32 = 97;

/// The farthest grid line, in fixed-point steps, that a pointer coordinate can
/// snap to: the offset between two `i32` pixels is below `2^32`.
pub const GRID_REACH: i64 = 429_496_730_000;

/// Nearest integer to the quotient `v / d`; a tie goes away from zero.
pub open spec fn round_div(v: int, d: int) -> int
    recommends
        d > 0,
{
    if v >= 0 {
        (2 * v + d) / (2 * d)
    } else {
        -((-2 * v + d) / (2 * d))
    }
}

/// A fixed-point length rounded to whole logical units.
pub open spec fn whole_units(v: int) -> int {
    round_div(v, UNIT as int)
}

/// The grid line, in fixed-point steps, nearest to a pixel offset from the
/// canvas origin.
pub open spec fn grid_line(offset: int) -> int {
    round_div(offset, GRID_SIZE as int) * GRID_STEP
}

/// Whether a fixed-point coordinate lies on a grid line that pointer input can
/// reach.
pub open spec fn on_grid(v: int) -> bool {
    &&& v % (GRID_STEP as int) == 0
    &&& -GRID_REACH <= v <= GRID_REACH
}

/// `round_div` picks the integer closest to the quotient: the remainder it
/// leaves is at most half the divisor, and a remainder of exactly half the
/// divisor only ever points back towards zero.
pub proof fn lemma_round_div_nearest(v: int, d: int)
    requires
        d > 0,
    ensures
        -d <= 2 * (v - round_div(v, d) * d) <= d,
        v >= 0 ==> 2 * (v - round_div(v, d) * d) < d,
        v < 0 ==> -d < 2 * (v - round_div(v, d) * d),
{
    if v >= 0 {
        let q = (2 * v + d) / (2 * d);
        vstd::arithmetic::div_mod::lemma_fundamental_div_mod(2 * v + d, 2 * d);
        vstd::arithmetic::div_mod::lemma_mod_bound(2 * v + d, 2 * d);
        assert((2 * d) * q == 2 * (q * d)) by (nonlinear_arith);
    } else {
        let q = (-2 * v + d) / (2 * d);
        vstd::arithmetic::div_mod::lemma_fundamental_div_mod(-2 * v + d, 2 * d);
        vstd::arithmetic::div_mod::lemma_mod_bound(-2 * v + d, 2 * d);
        assert((2 * d) * q == 2 * (q * d)) by (nonlinear_arith);
        assert((-q) * d == -(q * d)) by (nonlinear_arith);
    }
}

/// The integer that `lemma_round_div_nearest` describes is the only one.
pub proof fn lemma_round_div_unique(v: int, d: int, r: int)
    requires
        d > 0,
        -d <= 2 * (v - r * d) <= d,
        v >= 0 ==> 2 * (v - r * d) < d,
        v < 0 ==> -d < 2 * (v - r * d),
    ensures
        r == round_div(v, d),
{
    lemma_round_div_nearest(v, d);
    let q = round_div(v, d);
    assert(r == q) by (nonlinear_arith)
        requires
            d > 0,
            -d <= 2 * (v - r * d) <= d,
            -d <= 2 * (v - q * d) <= d,
            v >= 0 ==> 2 * (v - r * d) < d && 2 * (v - q * d) < d,
            v < 0 ==> -d < 2 * (v - r * d) && -d < 2 * (v - q * d),
    ;
}

/// Every pixel offset snaps to a grid line no farther than half a grid cell
/// away, and no offset between two `i32` pixels snaps beyond `GRID_REACH`.
pub proof fn lemma_grid_line_on_grid(offset: int)
    requires
        -0x1_0000_0000 < offset < 0x1_0000_0000,
    ensures
        on_grid(grid_line(offset)),
        -GRID_STEP < 2 * (offset * UNIT - grid_line(offset)) < GRID_STEP,
{
    lemma_round_div_nearest(offset, GRID_SIZE as int);
    let q = round_div(offset, GRID_SIZE as int);
    assert((q * 2500) % 2500 == 0) by (nonlinear_arith);
}

/// The nearest integer to `v / d`, computed on machine integers.
fn round_quotient(v: i64, d: i64) -> (r: i64)
    requires
        0 < d <= 0x4000_0000,
    ensures
        r == round_div(v as int, d as int),
{
    let q: i64 = v / d;
    let m: i64 = v % d;
    proof {
        if v >= 0 {
            vstd::arithmetic::div_mod::lemma_fundamental_div_mod(v as int, d as int);
            vstd::arithmetic::div_mod::lemma_mod_bound(v as int, d as int);
            vstd::arithmetic::div_mod::lemma_div_pos_is_pos(v as int, d as int);
        } else {
            vstd::arithmetic::div_mod::lemma_fundamental_div_mod(-v as int, d as int);
            vstd::arithmetic::div_mod::lemma_mod_bound(-v as int, d as int);
            vstd::arithmetic::div_mod::lemma_div_pos_is_pos(-v as int, d as int);
        }
        assert(v == d * q + m) by (nonlinear_arith)
            requires
                v >= 0 ==> v == d * (v as int / d as int) + (v as int % d as int) && q == v as int
                    / d as int && m == v as int % d as int,
                v < 0 ==> -v == d * (-v as int / d as int) + (-v as int % d as int) && q == -(-v as int
                    / d as int) && m == -(-v as int % d as int),
        ;
    }
    let r: i64 = if m >= d - m {
        proof {
            assert(q < i64::MAX) by (nonlinear_arith)
                requires
                    v == d * q + m,
                    m > 0,
                    d > 0,
                    v <= i64::MAX,
            ;
        }
        q + 1
    } else if m <= -d - m {
        proof {
            assert(q > i64::MIN) by (nonlinear_arith)
                requires
                    v == d * q + m,
                    m < 0,
                    d > 0,
                    v >= i64::MIN,
            ;
        }
        q - 1
    } else {
        q
    };
    proof {
        assert(r * d == d * q + (r - q) * d) by (nonlinear_arith);
        assert((r - q) * d == if r == q + 1 {
            d as int
        } else if r == q - 1 {
            -d as int
        } else {
            0
        }) by (nonlinear_arith)
            requires
                r == q + 1 || r == q - 1 || r == q,
        ;
        lemma_round_div_unique(v as int, d as int, r as int);
    }
    r
}

/// Rounds a fixed-point length to whole logical units, half a unit going away
/// from zero.
pub fn round_to_unit(v: i64) -> (r: i64)
    ensures
        r == whole_units(v as int),
{
    round_quotient(v, UNIT)
}

/// Snaps a raw pointer pixel to the grid: the pixel is taken relative to
/// `origin`, and the result is the nearest grid line in fixed-point steps.
pub fn snap_to_grid(raw: i32, origin: i32) -> (g: i64)
    ensures
        g == grid_line(raw - origin),
        on_grid(g as int),
{
    let offset: i64 = raw as i64 - origin as i64;
    let lines = round_quotient(offset, GRID_SIZE);
    proof {
        lemma_grid_line_on_grid(offset as int);
    }
    lines * GRID_STEP
}

} // verus!
