//! Explicit stepping schemes over the dynamics model, and the adaptive
//! sub-step count.
//!
//! Both schemes advance a state by `dt` under a force held constant for
//! the step. The first-order scheme takes one derivative evaluation; the
//! classical fourth-order scheme takes four, at the current state and at
//! three intermediate states, each stage's velocity components taken from
//! its own stage, and combines them with weights `1,2,2,1` over `6`.

use vstd::prelude::*;
use crate::dynamics::{derivative, deriv_model};
use crate::fault::SimError;
use crate::fixed::{tdiv, SCALE};
use crate::params::Params;
use crate::state::{apply_opt, Deriv, State};

verus! {

/// Frame intervals above this threshold (`0.02` in physical units) get
/// their sub-step count from the `ceil(60*dt)` formula instead of the
/// configured default.
pub const FRAME_CUTOFF: i64 = 20_000_000;

/// Selectable stepping scheme.
#[derive(Clone, Copy, Debug, PartialEq, Eq, Structural)]
pub enum Integrator {
    Euler,
    RungeKutta4,
}

impl Default for Integrator {
    /// The fourth-order scheme is the default.
    fn default() -> (r: Self)
        ensures
            r == Integrator::RungeKutta4,
    {
        Integrator::RungeKutta4
    }
}

/// The `1,2,2,1` over `6` stage combination of one derivative component;
/// its magnitude never exceeds the largest stage's, so it always fits.
pub open spec fn avg4(a: int, b: int, c: int, d: int) -> int {
    tdiv(a + 2 * b + 2 * c + d, 6)
}

/// The weighted-average derivative of the four stages.
pub open spec fn avg_deriv(k1: Deriv, k2: Deriv, k3: Deriv, k4: Deriv) -> Deriv {
    Deriv {
        xdot: avg4(k1.xdot as int, k2.xdot as int, k3.xdot as int, k4.xdot as int) as i64,
        vdot: avg4(k1.vdot as int, k2.vdot as int, k3.vdot as int, k4.vdot as int) as i64,
        thdot: avg4(k1.thdot as int, k2.thdot as int, k3.thdot as int, k4.thdot as int) as i64,
        wdot: avg4(k1.wdot as int, k2.wdot as int, k3.wdot as int, k4.wdot as int) as i64,
    }
}

/// The derivative quadruple of [`deriv_model`] as a [`Deriv`] (every
/// successful component fits).
pub open spec fn deriv_of(k: (int, int, int, int)) -> Deriv {
    Deriv { xdot: k.0 as i64, vdot: k.1 as i64, thdot: k.2 as i64, wdot: k.3 as i64 }
}

/// The complete outcome of a first-order (explicit Euler) step:
/// `state + derivative(state) * dt`.
#[verifier::opaque]
pub open spec fn euler_model(st: State, p: Params, f_in: int, dt: int) -> Result<State, SimError> {
    match deriv_model(st, p, f_in) {
        Err(e) => Err(e),
        Ok(k) => match apply_opt(st, deriv_of(k), dt) {
            Some(s2) => Ok(s2),
            None => Err(SimError::Overflow),
        },
    }
}

/// The complete outcome of a classical fourth-order step: stages at the
/// current state, at two half-step advances, and at a full-step advance,
/// then one advance by the weighted-average derivative.
#[verifier::opaque]
pub open spec fn rk4_model(st: State, p: Params, f_in: int, dt: int) -> Result<State, SimError> {
    let h = tdiv(dt, 2);
    match deriv_model(st, p, f_in) {
        Err(e) => Err(e),
        Ok(k1) => match apply_opt(st, deriv_of(k1), h) {
            None => Err(SimError::Overflow),
            Some(s2) => match deriv_model(s2, p, f_in) {
                Err(e) => Err(e),
                Ok(k2) => match apply_opt(st, deriv_of(k2), h) {
                    None => Err(SimError::Overflow),
                    Some(s3) => match deriv_model(s3, p, f_in) {
                        Err(e) => Err(e),
                        Ok(k3) => match apply_opt(st, deriv_of(k3), dt) {
                            None => Err(SimError::Overflow),
                            Some(s4) => match deriv_model(s4, p, f_in) {
                                Err(e) => Err(e),
                                Ok(k4) => {
                                    let ka = avg_deriv(
                                        deriv_of(k1),
                                        deriv_of(k2),
                                        deriv_of(k3),
                                        deriv_of(k4),
                                    );
                                    match apply_opt(st, ka, dt) {
                                        Some(s5) => Ok(s5),
                                        None => Err(SimError::Overflow),
                                    }
                                },
                            },
                        },
                    },
                },
            },
        },
    }
}

/// The outcome of one step under the selected scheme.
pub open spec fn step_model(st: State, p: Params, f_in: int, dt: int, sch: Integrator) -> Result<
    State,
    SimError,
> {
    match sch {
        Integrator::Euler => euler_model(st, p, f_in, dt),
        Integrator::RungeKutta4 => rk4_model(st, p, f_in, dt),
    }
}

/// One stage combination, exact and total.
fn avg4_exec(a: i64, b: i64, c: i64, d: i64) -> (r: i64)
    ensures
        r == avg4(a as int, b as int, c as int, d as int),
{
    let s: i128 = (a as i128) + 2 * (b as i128) + 2 * (c as i128) + (d as i128);
    (s / 6) as i64
}

/// Advances a state by `dt` under force `f_in` with the selected scheme,
/// exactly as [`step_model`] states; the result keeps the angle
/// normalization invariant.
pub fn step(st: &State, p: &Params, f_in: i64, dt: i64, sch: Integrator) -> (r: Result<
    State,
    SimError,
>)
    requires
        st.wf(),
        p.valid(),
    ensures
        match r {
            Ok(s2) => step_model(*st, *p, f_in as int, dt as int, sch) == Ok::<State, SimError>(s2)
                && s2.wf(),
            Err(e) => step_model(*st, *p, f_in as int, dt as int, sch) == Err::<State, SimError>(e),
        },
{
    proof {
        reveal(euler_model);
        reveal(rk4_model);
    }
    match sch {
        Integrator::Euler => {
            let k1 = match derivative(st, p, f_in) {
                Ok(k) => k,
                Err(e) => {
                    return Err(e);
                },
            };
            st.after(&k1, dt)
        },
        Integrator::RungeKutta4 => {
            let h = dt / 2;
            let k1 = match derivative(st, p, f_in) {
                Ok(k) => k,
                Err(e) => {
                    return Err(e);
                },
            };
            let s2 = match st.after(&k1, h) {
                Ok(s) => s,
                Err(e) => {
                    return Err(e);
                },
            };
            let k2 = match derivative(&s2, p, f_in) {
                Ok(k) => k,
                Err(e) => {
                    return Err(e);
                },
            };
            let s3 = match st.after(&k2, h) {
                Ok(s) => s,
                Err(e) => {
                    return Err(e);
                },
            };
            let k3 = match derivative(&s3, p, f_in) {
                Ok(k) => k,
                Err(e) => {
                    return Err(e);
                },
            };
            let s4 = match st.after(&k3, dt) {
                Ok(s) => s,
                Err(e) => {
                    return Err(e);
                },
            };
            let k4 = match derivative(&s4, p, f_in) {
                Ok(k) => k,
                Err(e) => {
                    return Err(e);
                },
            };
            let ka = Deriv {
                xdot: avg4_exec(k1.xdot, k2.xdot, k3.xdot, k4.xdot),
                vdot: avg4_exec(k1.vdot, k2.vdot, k3.vdot, k4.vdot),
                thdot: avg4_exec(k1.thdot, k2.thdot, k3.thdot, k4.thdot),
                wdot: avg4_exec(k1.wdot, k2.wdot, k3.wdot, k4.wdot),
            };
            st.after(&ka, dt)
        },
    }
}

/// The number of equal sub-steps a frame interval is divided into:
/// `ceil(60 * dt)` for intervals above [`FRAME_CUTOFF`], the configured
/// default otherwise.
pub open spec fn substeps_spec(dt: int, default_steps: int) -> int {
    if dt > FRAME_CUTOFF {
        (60 * dt + (SCALE - 1)) / (SCALE as int)
    } else {
        default_steps
    }
}

/// Computes the sub-step count; it is always at least one.
pub fn substep_count(dt: i64, default_steps: u32) -> (n: u64)
    requires
        dt > 0,
        default_steps >= 1,
    ensures
        n == substeps_spec(dt as int, default_steps as int),
        n >= 1,
{
    if dt > FRAME_CUTOFF {
        let p: i128 = (dt as i128) * 60 + ((SCALE as i128) - 1);
        (p / (SCALE as i128)) as u64
    } else {
        default_steps as u64
    }
}

} // verus!
