//! Fixed-point arithmetic on scaled 64-bit integers.
//!
//! A quantity is stored as an `i64` holding the real value multiplied by
//! [`SCALE`]; one representation unit is therefore `1e-9` of a physical unit.
//! Multiplication and division rescale their result and truncate toward zero,
//! mirroring hardware integer division. Every operation is checked: a result
//! outside the `i64` range (or a division by zero) yields `None`, never a
//! silently wrapped value.

use vstd::prelude::*;

verus! {

/// Number of representation units in one physical unit.
pub const SCALE: i64 = 1_000_000_000;

/// Half a physical unit.
pub const HALF_UNIT: i64 = 500_000_000;

/// A quarter of a physical unit.
pub const QUARTER_UNIT: i64 = 250_000_000;

/// Magnitude of a mathematical integer.
pub open spec fn mag(a: int) -> int {
    if a < 0 {
        -a
    } else {
        a
    }
}

/// Whether a mathematical integer is representable as an `i64`.
pub open spec fn fits(v: int) -> bool {
    i64::MIN <= v <= i64::MAX
}

/// Integer division truncated toward zero (the rounding of hardware
/// division), as opposed to the Euclidean `/` of spec arithmetic.
pub open spec fn tdiv(a: int, b: int) -> int
    recommends
        b != 0,
{
    if (a < 0) != (b < 0) {
        -(mag(a) / mag(b))
    } else {
        mag(a) / mag(b)
    }
}

/// Exact value of a fixed-point product before any range check.
pub open spec fn mul_val(a: int, b: int) -> int {
    tdiv(a * b, SCALE as int)
}

/// Exact value of a fixed-point quotient before any range check.
pub open spec fn div_val(a: int, b: int) -> int
    recommends
        b != 0,
{
    tdiv(a * (SCALE as int), b)
}

/// Checked addition on unbounded values: `Some` exactly when the sum fits.
pub open spec fn oadd(a: Option<int>, b: Option<int>) -> Option<int> {
    match (a, b) {
        (Some(x), Some(y)) => if fits(x + y) {
            Some(x + y)
        } else {
            None
        },
        _ => None,
    }
}

/// Checked subtraction on unbounded values: `Some` exactly when the
/// difference fits.
pub open spec fn osub(a: Option<int>, b: Option<int>) -> Option<int> {
    match (a, b) {
        (Some(x), Some(y)) => if fits(x - y) {
            Some(x - y)
        } else {
            None
        },
        _ => None,
    }
}

/// Checked fixed-point multiplication on unbounded values.
pub open spec fn omul(a: Option<int>, b: Option<int>) -> Option<int> {
    match (a, b) {
        (Some(x), Some(y)) => if fits(mul_val(x, y)) {
            Some(mul_val(x, y))
        } else {
            None
        },
        _ => None,
    }
}

/// Checked fixed-point division on unbounded values: `None` on a zero
/// divisor or an unrepresentable quotient.
pub open spec fn odiv(a: Option<int>, b: Option<int>) -> Option<int> {
    match (a, b) {
        (Some(x), Some(y)) => if y != 0 && fits(div_val(x, y)) {
            Some(div_val(x, y))
        } else {
            None
        },
        _ => None,
    }
}

/// Whether an executable checked result agrees with a checked spec value.
pub open spec fn opt_is(r: Option<i64>, o: Option<int>) -> bool {
    match (r, o) {
        (Some(v), Some(x)) => v == x,
        (None, None) => true,
        _ => false,
    }
}

/// Checked fixed-point addition: `Some` exactly when the sum fits.
pub fn fx_add(a: i64, b: i64) -> (r: Option<i64>)
    ensures
        match r {
            Some(v) => fits(a + b) && v == a + b,
            None => !fits(a + b),
        },
{
    a.checked_add(b)
}

/// Checked fixed-point subtraction: `Some` exactly when the difference fits.
pub fn fx_sub(a: i64, b: i64) -> (r: Option<i64>)
    ensures
        match r {
            Some(v) => fits(a - b) && v == a - b,
            None => !fits(a - b),
        },
{
    a.checked_sub(b)
}

/// Checked fixed-point multiplication: `Some(mul_val(a, b))` exactly when
/// that value fits.
pub fn fx_mul(a: i64, b: i64) -> (r: Option<i64>)
    ensures
        match r {
            Some(v) => fits(mul_val(a as int, b as int)) && v == mul_val(a as int, b as int),
            None => !fits(mul_val(a as int, b as int)),
        },
{
    proof {
        assert(i128::MIN < (a as int) * (b as int) < i128::MAX) by (nonlinear_arith);
    }
    let p: i128 = (a as i128) * (b as i128);
    let q: i128 = p / (SCALE as i128);
    if q < i64::MIN as i128 || q > i64::MAX as i128 {
        None
    } else {
        Some(q as i64)
    }
}

/// Checked fixed-point division: `Some(div_val(a, b))` exactly when `b` is
/// nonzero and that value fits.
pub fn fx_div(a: i64, b: i64) -> (r: Option<i64>)
    ensures
        match r {
            Some(v) => b != 0 && fits(div_val(a as int, b as int)) && v == div_val(
                a as int,
                b as int,
            ),
            None => b == 0 || !fits(div_val(a as int, b as int)),
        },
{
    if b == 0 {
        return None;
    }
    let na: u128 = (if a < 0 {
        -(a as i128)
    } else {
        a as i128
    }) as u128;
    let nb: u128 = (if b < 0 {
        -(b as i128)
    } else {
        b as i128
    }) as u128;
    proof {
        assert(na * (SCALE as u128) <= 0x8000_0000_0000_0000u128 * (SCALE as u128))
            by (nonlinear_arith)
            requires
                na <= 0x8000_0000_0000_0000u128,
        ;
    }
    let p: u128 = na * (SCALE as u128);
    let qm: u128 = p / nb;
    proof {
        assert(qm == mag(a as int) * (SCALE as int) / mag(b as int));
        assert(mag((a as int) * (SCALE as int)) == mag(a as int) * (SCALE as int))
            by (nonlinear_arith);
    }
    let neg: bool = (a < 0) != (b < 0);
    if neg && qm > 0 {
        if qm <= 0x8000_0000_0000_0000u128 {
            Some((-(qm as i128)) as i64)
        } else {
            None
        }
    } else if qm <= i64::MAX as u128 {
        Some(qm as i64)
    } else {
        None
    }
}

} // verus!
