//! Fixed-point sine and cosine for angles in millionths of a degree.
//!
//! Results are scaled by `TRIG_SCALE`: a return value of `1_000_000`
//! stands for 1.0.  The functions use Bhaskara I's rational approximation
//! of the sine on a half turn, extended to the full circle by sign
//! symmetry and to arbitrary angles by reduction modulo one turn.  The
//! approximation is exact at every multiple of 30 degrees; in particular
//! `sin 90 = 1`, `sin 0 = sin 180 = 0`, and `cos 90 = 0`.

use vstd::prelude::*;
use vstd::arithmetic::div_mod::{
    lemma_fundamental_div_mod, lemma_fundamental_div_mod_converse_mod, lemma_div_is_ordered,
    lemma_div_multiples_vanish,
};

verus! {

/// One full turn, in millionths of a degree.
pub const TURN: i64 = 360_000_000;

/// Half a turn, in millionths of a degree.
pub const HALF_TURN: i64 = 180_000_000;

/// A quarter turn, in millionths of a degree.
pub const QUARTER_TURN: i64 = 90_000_000;

/// The fixed-point scale of trigonometric results: 1.0 is `TRIG_SCALE`.
pub const TRIG_SCALE: i64 = 1_000_000;

/// `x * (180e6 - x)`: the product both the numerator and the denominator
/// of Bhaskara's approximation are built from.
pub open spec fn arc_product(x: int) -> int {
    x * (HALF_TURN - x)
}

/// Bhaskara I's sine approximation on `[0, HALF_TURN]`, scaled by
/// `TRIG_SCALE`.
pub open spec fn half_sin(x: int) -> int {
    (4_000_000 * arc_product(x)) / (40_500_000_000_000_000 - arc_product(x))
}

/// Sine over one full turn `[0, TURN)`: the second half mirrors the
/// first with opposite sign.
pub open spec fn sin_turn(x: int) -> int {
    if x < HALF_TURN {
        half_sin(x)
    } else {
        -half_sin(x - HALF_TURN)
    }
}

/// Sine of an arbitrary angle, by Euclidean reduction into `[0, TURN)`.
pub open spec fn sin_mdeg(x: int) -> int {
    sin_turn(x % (TURN as int))
}

/// Cosine of an arbitrary angle: the sine shifted by a quarter turn.
pub open spec fn cos_mdeg(x: int) -> int {
    sin_mdeg(x + QUARTER_TURN)
}

/// `arc_product` stays within `[0, 90e6 * 90e6]` on the half turn.
proof fn lemma_arc_product_bounds(x: int)
    requires
        0 <= x <= HALF_TURN,
    ensures
        0 <= arc_product(x) <= 8_100_000_000_000_000,
{
    assert(0 <= x * (HALF_TURN - x) <= 8_100_000_000_000_000) by (nonlinear_arith)
        requires
            0 <= x <= 180_000_000,
    ;
}

/// `half_sin` stays within `[0, TRIG_SCALE]` on the half turn.
proof fn lemma_half_sin_bounds(x: int)
    requires
        0 <= x <= HALF_TURN,
    ensures
        0 <= half_sin(x) <= TRIG_SCALE,
{
    lemma_arc_product_bounds(x);
    let p = arc_product(x);
    let num = 4_000_000 * p;
    let den = 40_500_000_000_000_000 - p;
    assert(num <= TRIG_SCALE * den) by (nonlinear_arith)
        requires
            0 <= p <= 8_100_000_000_000_000,
            num == 4_000_000 * p,
            den == 40_500_000_000_000_000 - p,
    ;
    lemma_div_is_ordered(num, TRIG_SCALE * den, den);
    lemma_div_multiples_vanish(TRIG_SCALE as int, den);
    assert(num / den >= 0) by (nonlinear_arith)
        requires
            num >= 0,
            den > 0,
    ;
}

/// Euclidean remainder of an angle by one turn.
pub fn reduce_angle(x: i64) -> (r: i64)
    requires
        x > i64::MIN,
    ensures
        0 <= r < TURN,
        r == (x as int) % (TURN as int),
{
    if x >= 0 {
        let m: u64 = (x as u64) % (TURN as u64);
        m as i64
    } else {
        let m: u64 = ((-x) as u64) % (TURN as u64);
        if m == 0 {
            proof {
                let y = -(x as int);
                let t = TURN as int;
                lemma_fundamental_div_mod(y, t);
                lemma_fundamental_div_mod_converse_mod(x as int, t, -(y / t), 0);
            }
            0
        } else {
            proof {
                let y = -(x as int);
                let t = TURN as int;
                lemma_fundamental_div_mod(y, t);
                lemma_fundamental_div_mod_converse_mod(x as int, t, -(y / t) - 1, t - (y % t));
            }
            TURN - (m as i64)
        }
    }
}

/// Bhaskara's sine on the first half turn, in executable form.
fn half_sin_exec(x: i64) -> (r: i64)
    requires
        0 <= x <= HALF_TURN,
    ensures
        r == half_sin(x as int),
        0 <= r <= TRIG_SCALE,
{
    proof {
        lemma_arc_product_bounds(x as int);
        lemma_half_sin_bounds(x as int);
    }
    let xe: u128 = x as u128;
    let p: u128 = xe * ((HALF_TURN as u128) - xe);
    let num: u128 = 4_000_000u128 * p;
    let den: u128 = 40_500_000_000_000_000u128 - p;
    let q: u128 = num / den;
    q as i64
}

/// Sine on one full turn, in executable form.
pub fn sin_micro(x: i64) -> (r: i64)
    requires
        0 <= x < TURN,
    ensures
        r == sin_turn(x as int),
        -TRIG_SCALE <= r <= TRIG_SCALE,
{
    if x < HALF_TURN {
        half_sin_exec(x)
    } else {
        let v = half_sin_exec(x - HALF_TURN);
        -v
    }
}

/// Sine of an arbitrary angle, scaled by `TRIG_SCALE`.
pub fn sin_angle(x: i64) -> (r: i64)
    requires
        x > i64::MIN,
    ensures
        r == sin_mdeg(x as int),
        -TRIG_SCALE <= r <= TRIG_SCALE,
{
    let red = reduce_angle(x);
    sin_micro(red)
}

/// Cosine of an arbitrary angle, scaled by `TRIG_SCALE`.
pub fn cos_angle(x: i64) -> (r: i64)
    requires
        x > i64::MIN,
    ensures
        r == cos_mdeg(x as int),
        -TRIG_SCALE <= r <= TRIG_SCALE,
{
    let red = reduce_angle(x);
    let shifted = if red + QUARTER_TURN >= TURN {
        red + QUARTER_TURN - TURN
    } else {
        red + QUARTER_TURN
    };
    proof {
        let xi = x as int;
        let t = TURN as int;
        let r = xi % t;
        lemma_fundamental_div_mod(xi, t);
        if r + QUARTER_TURN >= t {
            lemma_fundamental_div_mod_converse_mod(
                xi + QUARTER_TURN,
                t,
                xi / t + 1,
                r + QUARTER_TURN - t,
            );
        } else {
            lemma_fundamental_div_mod_converse_mod(xi + QUARTER_TURN, t, xi / t, r + QUARTER_TURN);
        }
    }
    sin_micro(shifted)
}

} // verus!
