//! Read-only mechanical-energy diagnostics, for validation only.
//!
//! ```text
//! potential = -m3*g*l*cos(th)
//! kinetic   = 0.5*m1*v*v + 0.5*m2*w*w*l*l + m3*v*w*l*cos(th)
//! total     = potential + kinetic
//! ```
//! The wheels contribute to the effective translational mass `m1` but
//! carry no separate rotational term; the formulas are kept exactly in
//! this lumped form.

use vstd::prelude::*;
use crate::fault::SimError;
use crate::fixed::{fx_add, fx_mul, oadd, omul, opt_is, HALF_UNIT};
use crate::params::{m1_val, m2_val, m3_val, Params};
use crate::state::State;
use crate::trig::{cos_fx, cos_spec};

verus! {

/// Checked potential energy `-m3*g*l*c` with respect to the pivot height.
pub open spec fn potential_opt(m3: int, g: int, l: int, c: int) -> Option<int> {
    omul(omul(omul(Some(-m3), Some(g)), Some(l)), Some(c))
}

/// Checked kinetic energy `0.5*m1*v*v + 0.5*m2*w*w*l*l + m3*v*w*l*c`.
pub open spec fn kinetic_opt(m1: int, m2: int, m3: int, l: int, v: int, w: int, c: int) -> Option<
    int,
> {
    let ta = omul(omul(omul(Some(HALF_UNIT as int), Some(m1)), Some(v)), Some(v));
    let tb = omul(
        omul(omul(omul(omul(Some(HALF_UNIT as int), Some(m2)), Some(w)), Some(w)), Some(l)),
        Some(l),
    );
    let tc = omul(omul(omul(omul(Some(m3), Some(v)), Some(w)), Some(l)), Some(c));
    oadd(oadd(ta, tb), tc)
}

/// The complete outcome of a potential-energy evaluation.
pub open spec fn potential_model(st: State, p: Params) -> Result<int, SimError> {
    if !p.masses_fit() {
        Err(SimError::Overflow)
    } else {
        match potential_opt(m3_val(p), p.gravity as int, p.length as int, cos_spec(st.th as int)) {
            Some(e) => Ok(e),
            None => Err(SimError::Overflow),
        }
    }
}

/// The complete outcome of a kinetic-energy evaluation.
pub open spec fn kinetic_model(st: State, p: Params) -> Result<int, SimError> {
    if !p.masses_fit() {
        Err(SimError::Overflow)
    } else {
        match kinetic_opt(
            m1_val(p),
            m2_val(p),
            m3_val(p),
            p.length as int,
            st.v as int,
            st.w as int,
            cos_spec(st.th as int),
        ) {
            Some(e) => Ok(e),
            None => Err(SimError::Overflow),
        }
    }
}

/// The complete outcome of a total-energy evaluation: the checked sum of
/// the two parts.
pub open spec fn total_model(st: State, p: Params) -> Result<int, SimError> {
    match (potential_model(st, p), kinetic_model(st, p)) {
        (Ok(pe), Ok(ke)) => if crate::fixed::fits(pe + ke) {
            Ok(pe + ke)
        } else {
            Err(SimError::Overflow)
        },
        (Err(e), _) => Err(e),
        (_, Err(e)) => Err(e),
    }
}

/// Potential energy of a state, exactly as [`potential_model`] states.
pub fn potential_energy(st: &State, p: &Params) -> (r: Result<i64, SimError>)
    requires
        st.wf(),
        p.valid(),
    ensures
        match r {
            Ok(e) => potential_model(*st, *p) == Ok::<int, SimError>(e as int),
            Err(e) => potential_model(*st, *p) == Err::<int, SimError>(e),
        },
{
    let (_m1, _m2, m3) = match p.effective_masses() {
        Ok(m) => m,
        Err(e) => {
            return Err(e);
        },
    };
    let c = cos_fx(st.th);
    match pe_exec(m3, p.gravity, p.length, c) {
        Some(e) => Ok(e),
        None => Err(SimError::Overflow),
    }
}

/// Kinetic energy of a state, exactly as [`kinetic_model`] states.
pub fn kinetic_energy(st: &State, p: &Params) -> (r: Result<i64, SimError>)
    requires
        st.wf(),
        p.valid(),
    ensures
        match r {
            Ok(e) => kinetic_model(*st, *p) == Ok::<int, SimError>(e as int),
            Err(e) => kinetic_model(*st, *p) == Err::<int, SimError>(e),
        },
{
    let (m1, m2, m3) = match p.effective_masses() {
        Ok(m) => m,
        Err(e) => {
            return Err(e);
        },
    };
    let c = cos_fx(st.th);
    match ke_exec(m1, m2, m3, p.length, st.v, st.w, c) {
        Some(e) => Ok(e),
        None => Err(SimError::Overflow),
    }
}

/// Total mechanical energy, exactly as [`total_model`] states.
pub fn total_energy(st: &State, p: &Params) -> (r: Result<i64, SimError>)
    requires
        st.wf(),
        p.valid(),
    ensures
        match r {
            Ok(e) => total_model(*st, *p) == Ok::<int, SimError>(e as int),
            Err(e) => total_model(*st, *p) == Err::<int, SimError>(e),
        },
{
    let pe = match potential_energy(st, p) {
        Ok(e) => e,
        Err(e) => {
            return Err(e);
        },
    };
    let ke = match kinetic_energy(st, p) {
        Ok(e) => e,
        Err(e) => {
            return Err(e);
        },
    };
    match fx_add(pe, ke) {
        Some(e) => Ok(e),
        None => Err(SimError::Overflow),
    }
}

/// Executable checked potential term.
fn pe_exec(m3: i64, g: i64, l: i64, c: i64) -> (r: Option<i64>)
    requires
        m3 > 0,
    ensures
        opt_is(r, potential_opt(m3 as int, g as int, l as int, c as int)),
{
    fx_mul(fx_mul(fx_mul(-m3, g)?, l)?, c)
}

/// Executable checked kinetic term.
fn ke_exec(m1: i64, m2: i64, m3: i64, l: i64, v: i64, w: i64, c: i64) -> (r: Option<i64>)
    ensures
        opt_is(
            r,
            kinetic_opt(m1 as int, m2 as int, m3 as int, l as int, v as int, w as int, c as int),
        ),
{
    let ta = fx_mul(fx_mul(fx_mul(HALF_UNIT, m1)?, v)?, v)?;
    let tb = fx_mul(fx_mul(fx_mul(fx_mul(fx_mul(HALF_UNIT, m2)?, w)?, w)?, l)?, l)?;
    let tc = fx_mul(fx_mul(fx_mul(fx_mul(m3, v)?, w)?, l)?, c)?;
    fx_add(fx_add(ta, tb)?, tc)
}

} // verus!
