//! The kinematic state of the cart-pendulum assembly and its update rule.

use vstd::prelude::*;
use crate::fault::SimError;
use crate::fixed::{fx_add, fx_mul, oadd, omul, HALF_UNIT};
use crate::trig::{PI_FX, TWO_PI};

verus! {

/// Minimal kinematic state: cart position `x`, cart velocity `v`, pendulum
/// angular velocity `w`, and pendulum angle `th` measured from the downward
/// vertical. After every mutation `th` is normalized into `[0, TWO_PI)`.
#[derive(Clone, Copy, Debug, PartialEq, Eq, Structural)]
pub struct State {
    pub x: i64,
    pub v: i64,
    pub w: i64,
    pub th: i64,
}

/// Time-derivative of a [`State`]: one component per state component.
#[derive(Clone, Copy, Debug, PartialEq, Eq, Structural)]
pub struct Deriv {
    pub xdot: i64,
    pub vdot: i64,
    pub thdot: i64,
    pub wdot: i64,
}

/// An angle normalized into `[0, TWO_PI)`: the Euclidean remainder.
pub open spec fn wrap_spec(t: int) -> int {
    t % (TWO_PI as int)
}

/// Normalizes an angle into `[0, TWO_PI)`.
pub fn wrap(t: i64) -> (r: i64)
    ensures
        r == wrap_spec(t as int),
        0 <= r < TWO_PI,
{
    let r0 = t % TWO_PI;
    if r0 < 0 {
        r0 + TWO_PI
    } else {
        r0
    }
}

/// The state advanced by `k * dt`, each component checked, the angle
/// normalized; `None` when any component leaves the representable range.
pub open spec fn apply_opt(st: State, k: Deriv, dt: int) -> Option<State> {
    let w2 = oadd(Some(st.w as int), omul(Some(k.wdot as int), Some(dt)));
    let t2 = oadd(Some(st.th as int), omul(Some(k.thdot as int), Some(dt)));
    let v2 = oadd(Some(st.v as int), omul(Some(k.vdot as int), Some(dt)));
    let x2 = oadd(Some(st.x as int), omul(Some(k.xdot as int), Some(dt)));
    match (w2, t2, v2, x2) {
        (Some(w3), Some(t3), Some(v3), Some(x3)) => Some(
            State { x: x3 as i64, v: v3 as i64, w: w3 as i64, th: wrap_spec(t3) as i64 },
        ),
        _ => None,
    }
}

impl Default for State {
    /// The session's starting state: everything at rest, the pendulum
    /// half a radian past upright.
    fn default() -> (st: State)
        ensures
            st == (State { x: 0, v: 0, w: 0, th: 3_641_592_654 }),
            st.wf(),
    {
        State { x: 0, v: 0, w: 0, th: PI_FX + HALF_UNIT }
    }
}

impl State {
    /// The angle-normalization invariant every reachable state satisfies.
    pub open spec fn wf(self) -> bool {
        0 <= self.th < TWO_PI
    }

    /// Builds a state from raw components, normalizing the angle.
    pub fn from(x: i64, v: i64, w: i64, th: i64) -> (st: State)
        ensures
            st.x == x,
            st.v == v,
            st.w == w,
            st.th == wrap_spec(th as int),
            st.wf(),
    {
        State { x, v, w, th: wrap(th) }
    }

    /// The components as a tuple `(x, v, w, th)`.
    pub fn unpack(&self) -> (r: (i64, i64, i64, i64))
        ensures
            r == (self.x, self.v, self.w, self.th),
    {
        (self.x, self.v, self.w, self.th)
    }

    /// The state advanced by one explicit step `self + k * dt` with the
    /// angle re-normalized, or `Overflow` if any component leaves the
    /// representable range.
    pub fn after(&self, k: &Deriv, dt: i64) -> (r: Result<State, SimError>)
        ensures
            match r {
                Ok(s2) => apply_opt(*self, *k, dt as int) == Some(s2) && s2.wf(),
                Err(e) => e == SimError::Overflow && apply_opt(*self, *k, dt as int) is None,
            },
    {
        let dw = fx_mul(k.wdot, dt);
        let dth = fx_mul(k.thdot, dt);
        let dv = fx_mul(k.vdot, dt);
        let dx = fx_mul(k.xdot, dt);
        match (dw, dth, dv, dx) {
            (Some(dw), Some(dth), Some(dv), Some(dx)) => {
                let w2 = fx_add(self.w, dw);
                let t2 = fx_add(self.th, dth);
                let v2 = fx_add(self.v, dv);
                let x2 = fx_add(self.x, dx);
                match (w2, t2, v2, x2) {
                    (Some(w3), Some(t3), Some(v3), Some(x3)) => Ok(
                        State { x: x3, v: v3, w: w3, th: wrap(t3) },
                    ),
                    _ => Err(SimError::Overflow),
                }
            },
            _ => Err(SimError::Overflow),
        }
    }

    /// Advances the state in place; on failure the state is unchanged.
    pub fn update(&mut self, k: &Deriv, dt: i64) -> (r: Result<(), SimError>)
        ensures
            match r {
                Ok(()) => apply_opt(*old(self), *k, dt as int) == Some(*final(self))
                    && final(self).wf(),
                Err(e) => e == SimError::Overflow && apply_opt(*old(self), *k, dt as int) is None
                    && *final(self) == *old(self),
            },
    {
        match self.after(k, dt) {
            Ok(s2) => {
                *self = s2;
                Ok(())
            },
            Err(e) => Err(e),
        }
    }
}

} // verus!
