//! The Euler-Lagrange equations of the cart + rod-and-bob pendulum +
//! rolling-wheel assembly.
//!
//! [`derivative`] is a pure function from (state, parameters, applied
//! force) to the time-derivative of the state. Its entire outcome — the
//! exact quotients, the singular-configuration signal, and the overflow
//! signal — is pinned down by the spec-level model [`deriv_model`], which
//! mirrors the computation operation by operation in checked fixed-point
//! arithmetic.

use vstd::prelude::*;
use crate::fault::SimError;
use crate::fixed::{div_val, fx_add, fx_div, fx_mul, fx_sub, mag, mul_val, oadd, odiv, omul, opt_is, osub, SCALE};
use crate::params::{m1_val, m2_val, m3_val, Params};
use crate::state::{Deriv, State};
use crate::trig::{cos_spec, cos_fx, sin_spec, sin_fx, PI_FX};

verus! {

/// Threshold under which the magnitude of the dynamics denominator is
/// treated as singular (`1e-6` in physical units).
pub const D_EPS: i64 = 1_000;

/// Denominator of both accelerations:
/// `m2*l*l*m1 - m3*m3*l*l*c*c`, checked left to right.
pub open spec fn den_opt(m1: int, m2: int, m3: int, l: int, c: int) -> Option<int> {
    osub(
        omul(omul(omul(Some(m2), Some(l)), Some(l)), Some(m1)),
        omul(omul(omul(omul(omul(Some(m3), Some(m3)), Some(l)), Some(l)), Some(c)), Some(c)),
    )
}

/// Numerator driving the angular acceleration:
/// `-m3*m3*l*l*w*w*s*c + m3*l*b1*v*c - m1*(m3*g*l*s + b2*w)`.
pub open spec fn f2_opt(
    m1: int,
    m3: int,
    l: int,
    g: int,
    b1: int,
    b2: int,
    v: int,
    w: int,
    s: int,
    c: int,
) -> Option<int> {
    let t1 = omul(
        omul(
            omul(omul(omul(omul(omul(Some(-m3), Some(m3)), Some(l)), Some(l)), Some(w)), Some(w)),
            Some(s),
        ),
        Some(c),
    );
    let t2 = omul(omul(omul(omul(Some(m3), Some(l)), Some(b1)), Some(v)), Some(c));
    let t3 = omul(
        Some(m1),
        oadd(omul(omul(omul(Some(m3), Some(g)), Some(l)), Some(s)), omul(Some(b2), Some(w))),
    );
    osub(oadd(t1, t2), t3)
}

/// Numerator driving the cart acceleration:
/// `m2*m3*l*l*l*w*w*s - m2*l*l*b1*v + m3*m3*l*l*g*s*c + m3*l*b2*w*c`.
pub open spec fn f4_opt(
    m2: int,
    m3: int,
    l: int,
    g: int,
    b1: int,
    b2: int,
    v: int,
    w: int,
    s: int,
    c: int,
) -> Option<int> {
    let u1 = omul(
        omul(
            omul(omul(omul(omul(omul(Some(m2), Some(m3)), Some(l)), Some(l)), Some(l)), Some(w)),
            Some(w),
        ),
        Some(s),
    );
    let u2 = omul(omul(omul(omul(Some(m2), Some(l)), Some(l)), Some(b1)), Some(v));
    let u3 = omul(
        omul(omul(omul(omul(omul(Some(m3), Some(m3)), Some(l)), Some(l)), Some(g)), Some(s)),
        Some(c),
    );
    let u4 = omul(omul(omul(omul(Some(m3), Some(l)), Some(b2)), Some(w)), Some(c));
    oadd(oadd(osub(u1, u2), u3), u4)
}

/// The complete outcome of one derivative evaluation: the exact
/// `(xdot, vdot, thdot, wdot)` quadruple, or the error the evaluation
/// reports, with overflow of the denominator taking precedence over the
/// singularity test and everything else reported as `Overflow`.
/// (Opaque: callers reason through [`derivative`]'s contract and reveal
/// the body only where the equations themselves matter.)
#[verifier::opaque]
pub open spec fn deriv_model(st: State, p: Params, f_in: int) -> Result<
    (int, int, int, int),
    SimError,
> {
    if !p.masses_fit() {
        Err(SimError::Overflow)
    } else {
        let m1 = m1_val(p);
        let m2 = m2_val(p);
        let m3 = m3_val(p);
        let l = p.length as int;
        let s = sin_spec(st.th as int);
        let c = cos_spec(st.th as int);
        match den_opt(m1, m2, m3, l, c) {
            None => Err(SimError::Overflow),
            Some(d) => if mag(d) < D_EPS {
                Err(SimError::Singular)
            } else {
                let f2 = f2_opt(
                    m1,
                    m3,
                    l,
                    p.gravity as int,
                    p.damp_lin as int,
                    p.damp_ang as int,
                    st.v as int,
                    st.w as int,
                    s,
                    c,
                );
                let f4 = f4_opt(
                    m2,
                    m3,
                    l,
                    p.gravity as int,
                    p.damp_lin as int,
                    p.damp_ang as int,
                    st.v as int,
                    st.w as int,
                    s,
                    c,
                );
                let nv = oadd(f4, omul(omul(omul(Some(m2), Some(l)), Some(l)), Some(f_in)));
                let nw = osub(f2, omul(omul(omul(Some(m3), Some(l)), Some(c)), Some(f_in)));
                match (odiv(nv, Some(d)), odiv(nw, Some(d))) {
                    (Some(vd), Some(wd)) => Ok((st.v as int, vd, st.w as int, wd)),
                    _ => Err(SimError::Overflow),
                }
            },
        }
    }
}

/// Whether the denominator evaluates (no overflow) to a magnitude under
/// the singularity threshold.
pub open spec fn singular_den(st: State, p: Params) -> bool {
    match den_opt(
        m1_val(p),
        m2_val(p),
        m3_val(p),
        p.length as int,
        cos_spec(st.th as int),
    ) {
        Some(d) => mag(d) < D_EPS,
        None => false,
    }
}

/// Fixed-point law: at the inverted equilibrium `v = w = 0`, `th = pi`
/// with no applied force, every successful derivative evaluation is
/// exactly zero in all four components, for any valid parameters.
pub proof fn lemma_equilibrium_fixed_point(p: Params)
    requires
        p.valid(),
        deriv_model(State { x: 0, v: 0, w: 0, th: PI_FX }, p, 0) is Ok,
    ensures
        deriv_model(State { x: 0, v: 0, w: 0, th: PI_FX }, p, 0) == Ok::<
            (int, int, int, int),
            SimError,
        >((0, 0, 0, 0)),
{
    reveal(deriv_model);
    assert(sin_spec(PI_FX as int) == 0);
    assert(cos_spec(PI_FX as int) == -(SCALE as int));
    assert forall|a: int| #[trigger] mul_val(a, 0) == 0 by {
        assert(a * 0 == 0);
    }
    assert forall|a: int| #[trigger] mul_val(0, a) == 0 by {
        assert(0 * a == 0);
    }
    assert forall|d: int| d != 0 implies #[trigger] div_val(0, d) == 0 by {}
}

/// Singular-detection law: whenever the masses are representable and the
/// denominator evaluates to a magnitude under [`D_EPS`], the derivative
/// reports `Singular` — never a meaningless quotient — whatever force is
/// applied.
pub proof fn lemma_singular_detected(st: State, p: Params, f_in: int)
    requires
        p.masses_fit(),
        singular_den(st, p),
    ensures
        deriv_model(st, p, f_in) == Err::<(int, int, int, int), SimError>(SimError::Singular),
{
    reveal(deriv_model);
}

/// Executable denominator.
fn den_exec(m1: i64, m2: i64, m3: i64, l: i64, c: i64) -> (r: Option<i64>)
    ensures
        opt_is(r, den_opt(m1 as int, m2 as int, m3 as int, l as int, c as int)),
{
    let a = fx_mul(fx_mul(fx_mul(m2, l)?, l)?, m1)?;
    let b = fx_mul(fx_mul(fx_mul(fx_mul(fx_mul(m3, m3)?, l)?, l)?, c)?, c)?;
    fx_sub(a, b)
}

/// Executable angular-acceleration numerator.
fn f2_exec(
    m1: i64,
    m3: i64,
    l: i64,
    g: i64,
    b1: i64,
    b2: i64,
    v: i64,
    w: i64,
    s: i64,
    c: i64,
) -> (r: Option<i64>)
    requires
        m3 > 0,
    ensures
        opt_is(
            r,
            f2_opt(
                m1 as int,
                m3 as int,
                l as int,
                g as int,
                b1 as int,
                b2 as int,
                v as int,
                w as int,
                s as int,
                c as int,
            ),
        ),
{
    let t1 = fx_mul(
        fx_mul(fx_mul(fx_mul(fx_mul(fx_mul(fx_mul(-m3, m3)?, l)?, l)?, w)?, w)?, s)?,
        c,
    )?;
    let t2 = fx_mul(fx_mul(fx_mul(fx_mul(m3, l)?, b1)?, v)?, c)?;
    let t3 = fx_mul(m1, fx_add(fx_mul(fx_mul(fx_mul(m3, g)?, l)?, s)?, fx_mul(b2, w)?)?)?;
    fx_sub(fx_add(t1, t2)?, t3)
}

/// Executable cart-acceleration numerator.
fn f4_exec(
    m2: i64,
    m3: i64,
    l: i64,
    g: i64,
    b1: i64,
    b2: i64,
    v: i64,
    w: i64,
    s: i64,
    c: i64,
) -> (r: Option<i64>)
    ensures
        opt_is(
            r,
            f4_opt(
                m2 as int,
                m3 as int,
                l as int,
                g as int,
                b1 as int,
                b2 as int,
                v as int,
                w as int,
                s as int,
                c as int,
            ),
        ),
{
    let u1 = fx_mul(fx_mul(fx_mul(fx_mul(fx_mul(fx_mul(fx_mul(m2, m3)?, l)?, l)?, l)?, w)?, w)?, s)?;
    let u2 = fx_mul(fx_mul(fx_mul(fx_mul(m2, l)?, l)?, b1)?, v)?;
    let u3 = fx_mul(fx_mul(fx_mul(fx_mul(fx_mul(fx_mul(m3, m3)?, l)?, l)?, g)?, s)?, c)?;
    let u4 = fx_mul(fx_mul(fx_mul(fx_mul(m3, l)?, b2)?, w)?, c)?;
    fx_add(fx_add(fx_sub(u1, u2)?, u3)?, u4)
}

/// Executable full numerator of `vdot`: `f4 + m2*l*l*F`.
fn numv_exec(f4: i64, m2: i64, l: i64, f_in: i64) -> (r: Option<i64>)
    ensures
        opt_is(
            r,
            oadd(
                Some(f4 as int),
                omul(omul(omul(Some(m2 as int), Some(l as int)), Some(l as int)), Some(f_in as int)),
            ),
        ),
{
    fx_add(f4, fx_mul(fx_mul(fx_mul(m2, l)?, l)?, f_in)?)
}

/// Executable full numerator of `wdot`: `f2 - m3*l*c*F`.
fn numw_exec(f2: i64, m3: i64, l: i64, c: i64, f_in: i64) -> (r: Option<i64>)
    ensures
        opt_is(
            r,
            osub(
                Some(f2 as int),
                omul(omul(omul(Some(m3 as int), Some(l as int)), Some(c as int)), Some(f_in as int)),
            ),
        ),
{
    fx_sub(f2, fx_mul(fx_mul(fx_mul(m3, l)?, c)?, f_in)?)
}

/// Evaluates the Euler-Lagrange equations at `st` under applied force
/// `f_in`: the exact checked fixed-point value of
/// ```text
/// vdot = (f4 + m2*l^2*F) / d      wdot = (f2 - m3*l*c*F) / d
/// xdot = v                        thdot = w
/// ```
/// as [`deriv_model`] states it, failing with `Singular` when the
/// denominator's magnitude falls under [`D_EPS`] and with `Overflow` when
/// any intermediate leaves the representable range.
pub fn derivative(st: &State, p: &Params, f_in: i64) -> (r: Result<Deriv, SimError>)
    requires
        st.wf(),
        p.valid(),
    ensures
        match r {
            Ok(k) => deriv_model(*st, *p, f_in as int) == Ok::<(int, int, int, int), SimError>(
                (k.xdot as int, k.vdot as int, k.thdot as int, k.wdot as int),
            ),
            Err(e) => deriv_model(*st, *p, f_in as int) == Err::<(int, int, int, int), SimError>(e),
        },
{
    proof {
        reveal(deriv_model);
    }
    let (m1, m2, m3) = match p.effective_masses() {
        Ok(m) => m,
        Err(e) => {
            return Err(e);
        },
    };
    let s = sin_fx(st.th);
    let c = cos_fx(st.th);
    let d = match den_exec(m1, m2, m3, p.length, c) {
        Some(d) => d,
        None => {
            return Err(SimError::Overflow);
        },
    };
    if -D_EPS < d && d < D_EPS {
        return Err(SimError::Singular);
    }
    let f2 = match f2_exec(m1, m3, p.length, p.gravity, p.damp_lin, p.damp_ang, st.v, st.w, s, c) {
        Some(v) => v,
        None => {
            return Err(SimError::Overflow);
        },
    };
    let f4 = match f4_exec(m2, m3, p.length, p.gravity, p.damp_lin, p.damp_ang, st.v, st.w, s, c) {
        Some(v) => v,
        None => {
            return Err(SimError::Overflow);
        },
    };
    let nv = match numv_exec(f4, m2, p.length, f_in) {
        Some(v) => v,
        None => {
            return Err(SimError::Overflow);
        },
    };
    let nw = match numw_exec(f2, m3, p.length, c, f_in) {
        Some(v) => v,
        None => {
            return Err(SimError::Overflow);
        },
    };
    let vdot = match fx_div(nv, d) {
        Some(v) => v,
        None => {
            return Err(SimError::Overflow);
        },
    };
    let wdot = match fx_div(nw, d) {
        Some(v) => v,
        None => {
            return Err(SimError::Overflow);
        },
    };
    Ok(Deriv { xdot: st.v, vdot, thdot: st.w, wdot })
}

} // verus!
