//! Sine and cosine on fixed-point angles.
//!
//! An angle lives in `[0, TWO_PI)`. It is reduced to a quadrant plus a
//! residual in `[0, HALF_PI)`, and the residual goes through a degree-11
//! (sine) or degree-10 (cosine) truncated Taylor polynomial evaluated in
//! Horner form with fixed-point operations. The contracts state the exact
//! polynomial value, so callers compute with a completely determined
//! function; at the cardinal angles `0`, `HALF_PI`, `PI`, and `PI + HALF_PI`
//! the reduction makes the results exact (`0`, `SCALE`, `-SCALE`).

use vstd::prelude::*;
use crate::fixed::{mul_val, tdiv, SCALE};

verus! {

/// A quarter turn: `pi/2` in fixed-point units.
pub const HALF_PI: i64 = 1_570_796_327;

/// Half a turn: `pi`, exactly `2 * HALF_PI` so that the quadrant reduction
/// is seamless.
pub const PI_FX: i64 = 3_141_592_654;

/// A full turn: `2 * pi`, exactly `4 * HALF_PI`.
pub const TWO_PI: i64 = 6_283_185_308;

/// Largest value of `mul_val(x, x)` for `x` in `[0, HALF_PI]`.
pub const X2_MAX: i64 = 2_467_401_101;

/// Exact value of the truncated Taylor polynomial for sine on a residual
/// `x` in `[0, HALF_PI]`:
/// `x * (1 - x^2/6 * (1 - x^2/20 * (1 - x^2/42 * (1 - x^2/72 * (1 - x^2/110)))))`.
pub open spec fn sin_poly_spec(x: int) -> int {
    let x2 = mul_val(x, x);
    let u5 = SCALE - tdiv(x2, 110);
    let u4 = SCALE - tdiv(mul_val(x2, u5), 72);
    let u3 = SCALE - tdiv(mul_val(x2, u4), 42);
    let u2 = SCALE - tdiv(mul_val(x2, u3), 20);
    let u1 = SCALE - tdiv(mul_val(x2, u2), 6);
    mul_val(x, u1)
}

/// Exact value of the truncated Taylor polynomial for cosine on a residual
/// `x` in `[0, HALF_PI]`:
/// `1 - x^2/2 * (1 - x^2/12 * (1 - x^2/30 * (1 - x^2/56 * (1 - x^2/90))))`.
pub open spec fn cos_poly_spec(x: int) -> int {
    let x2 = mul_val(x, x);
    let v5 = SCALE - tdiv(x2, 90);
    let v4 = SCALE - tdiv(mul_val(x2, v5), 56);
    let v3 = SCALE - tdiv(mul_val(x2, v4), 30);
    let v2 = SCALE - tdiv(mul_val(x2, v3), 12);
    SCALE - tdiv(mul_val(x2, v2), 2)
}

/// Sine of an angle in `[0, TWO_PI)`, by quadrant reduction onto the
/// polynomials.
pub open spec fn sin_spec(th: int) -> int {
    let q = th / (HALF_PI as int);
    let r = th % (HALF_PI as int);
    if q == 0 {
        sin_poly_spec(r)
    } else if q == 1 {
        cos_poly_spec(r)
    } else if q == 2 {
        -sin_poly_spec(r)
    } else {
        -cos_poly_spec(r)
    }
}

/// Cosine of an angle in `[0, TWO_PI)`, by quadrant reduction onto the
/// polynomials.
pub open spec fn cos_spec(th: int) -> int {
    let q = th / (HALF_PI as int);
    let r = th % (HALF_PI as int);
    if q == 0 {
        cos_poly_spec(r)
    } else if q == 1 {
        -sin_poly_spec(r)
    } else if q == 2 {
        -cos_poly_spec(r)
    } else {
        sin_poly_spec(r)
    }
}

/// Fixed-point product of two nonnegative values with one factor at most
/// one physical unit; the result never exceeds the other factor.
fn mul_unit(a: i64, b: i64) -> (r: i64)
    requires
        0 <= a <= 4 * (SCALE as int),
        0 <= b <= SCALE,
    ensures
        r == mul_val(a as int, b as int),
        0 <= r <= a,
{
    proof {
        assert(0 <= (a as int) * (b as int) <= (a as int) * (SCALE as int)) by (nonlinear_arith)
            requires
                0 <= a,
                0 <= b <= SCALE,
        ;
    }
    (((a as i128) * (b as i128)) / (SCALE as i128)) as i64
}

/// Square of a residual in `[0, HALF_PI]`, rescaled.
fn sq_residual(x: i64) -> (r: i64)
    requires
        0 <= x <= HALF_PI,
    ensures
        r == mul_val(x as int, x as int),
        0 <= r <= X2_MAX,
{
    proof {
        assert(0 <= (x as int) * (x as int) <= (HALF_PI as int) * (HALF_PI as int))
            by (nonlinear_arith)
            requires
                0 <= x <= HALF_PI,
        ;
    }
    (((x as i128) * (x as i128)) / (SCALE as i128)) as i64
}

/// Evaluates the sine polynomial on a residual.
fn sin_poly(x: i64) -> (r: i64)
    requires
        0 <= x <= HALF_PI,
    ensures
        r == sin_poly_spec(x as int),
        0 <= r <= HALF_PI,
{
    let x2 = sq_residual(x);
    let u5 = SCALE - x2 / 110;
    let u4 = SCALE - mul_unit(x2, u5) / 72;
    let u3 = SCALE - mul_unit(x2, u4) / 42;
    let u2 = SCALE - mul_unit(x2, u3) / 20;
    let u1 = SCALE - mul_unit(x2, u2) / 6;
    mul_unit(x, u1)
}

/// Evaluates the cosine polynomial on a residual.
fn cos_poly(x: i64) -> (r: i64)
    requires
        0 <= x <= HALF_PI,
    ensures
        r == cos_poly_spec(x as int),
        -SCALE <= r <= SCALE,
{
    let x2 = sq_residual(x);
    let v5 = SCALE - x2 / 90;
    let v4 = SCALE - mul_unit(x2, v5) / 56;
    let v3 = SCALE - mul_unit(x2, v4) / 30;
    let v2 = SCALE - mul_unit(x2, v3) / 12;
    SCALE - mul_unit(x2, v2) / 2
}

/// Sine of a normalized angle.
pub fn sin_fx(th: i64) -> (r: i64)
    requires
        0 <= th < TWO_PI,
    ensures
        r == sin_spec(th as int),
        -2 * (SCALE as int) <= r <= 2 * (SCALE as int),
{
    let q = th / HALF_PI;
    let r = th % HALF_PI;
    if q == 0 {
        sin_poly(r)
    } else if q == 1 {
        cos_poly(r)
    } else if q == 2 {
        -sin_poly(r)
    } else {
        -cos_poly(r)
    }
}

/// Cosine of a normalized angle.
pub fn cos_fx(th: i64) -> (r: i64)
    requires
        0 <= th < TWO_PI,
    ensures
        r == cos_spec(th as int),
        -2 * (SCALE as int) <= r <= 2 * (SCALE as int),
{
    let q = th / HALF_PI;
    let r = th % HALF_PI;
    if q == 0 {
        cos_poly(r)
    } else if q == 1 {
        -sin_poly(r)
    } else if q == 2 {
        -cos_poly(r)
    } else {
        sin_poly(r)
    }
}

} // verus!

