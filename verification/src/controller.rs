//! The PID feedback law with integral anti-windup and a manual-override
//! path.
//!
//! The error is measured against the inverted equilibrium, `PI_FX - th`.
//! Each sub-step accumulates the error integral, computes the clamped
//! feedback force when enabled, and lets an injected manual command
//! override the force while unconditionally discarding the accumulated
//! integral (anti-windup).

use vstd::prelude::*;
use crate::fault::SimError;
use crate::fixed::{fx_add, fx_mul, fx_sub, oadd, omul, osub};
use crate::trig::{PI_FX, TWO_PI};

verus! {

/// Feedback-law state: the three gains, the force clamp, the enable flag,
/// the accumulated error integral, and the last computed force and error.
#[derive(Clone, Copy, Debug, PartialEq, Eq, Structural)]
pub struct Controller {
    pub kp: i64,
    pub ki: i64,
    pub kd: i64,
    pub fclamp: i64,
    pub enabled: bool,
    pub integral: i64,
    pub last_force: i64,
    pub last_error: i64,
}

/// Saturation of a force into `[-fclamp, fclamp]`.
pub open spec fn clamp_spec(f: int, fclamp: int) -> int {
    if f > fclamp {
        fclamp
    } else if f < -fclamp {
        -fclamp
    } else {
        f
    }
}

/// The complete outcome of one controller sub-step on `(th, w)` over `dt`
/// with manual override `ov`: `Some((force, integral, error))`, or `None`
/// when a checked operation leaves the representable range.
///
/// The integral accumulates first; when enabled the force is the clamped
/// PID law over the updated integral; a manual override then replaces the
/// force and zeroes the integral.
pub open spec fn ctrl_step_model(c: Controller, th: int, w: int, dt: int, ov: Option<i64>) -> Option<
    (int, int, int),
> {
    let e = PI_FX - th;
    match oadd(Some(c.integral as int), omul(Some(e), Some(dt))) {
        None => None,
        Some(i1) => {
            if c.enabled {
                match osub(
                    oadd(omul(Some(c.kp as int), Some(e)), omul(Some(c.ki as int), Some(i1))),
                    omul(Some(c.kd as int), Some(w)),
                ) {
                    None => None,
                    Some(raw) => {
                        let f = clamp_spec(raw, c.fclamp as int);
                        match ov {
                            Some(fo) => Some((fo as int, 0, e)),
                            None => Some((f, i1, e)),
                        }
                    },
                }
            } else {
                match ov {
                    Some(fo) => Some((fo as int, 0, e)),
                    None => Some((0, i1, e)),
                }
            }
        },
    }
}

/// Anti-windup law: a manual override commands exactly its own force and
/// leaves the integral accumulator at exactly zero, whatever value had
/// accumulated before and whether or not the automatic law is enabled.
pub proof fn lemma_override_clears_integral(c: Controller, th: int, w: int, dt: int, fo: i64)
    ensures
        ctrl_step_model(c, th, w, dt, Some(fo)) matches Some(fie) ==> fie == (fo as int, 0int, PI_FX
            - th),
{
}

/// Saturation law: without an override, an enabled controller's computed
/// force never leaves `[-fclamp, fclamp]`.
pub proof fn lemma_enabled_force_clamped(c: Controller, th: int, w: int, dt: int)
    requires
        c.enabled,
        c.wf(),
    ensures
        ctrl_step_model(c, th, w, dt, None) matches Some(fie) ==> -c.fclamp <= fie.0 <= c.fclamp,
{
}

impl Default for Controller {
    /// Nominal stabilizing gains with a `400` force clamp, enabled, with
    /// an empty accumulator.
    fn default() -> (c: Controller)
        ensures
            c == (Controller {
                kp: 400_000_000_000,
                ki: 80_000_000_000,
                kd: 25_000_000_000,
                fclamp: 400_000_000_000,
                enabled: true,
                integral: 0,
                last_force: 0,
                last_error: 0,
            }),
            c.wf(),
    {
        Controller {
            kp: 400_000_000_000,
            ki: 80_000_000_000,
            kd: 25_000_000_000,
            fclamp: 400_000_000_000,
            enabled: true,
            integral: 0,
            last_force: 0,
            last_error: 0,
        }
    }
}

impl Controller {
    /// The clamp bound is never negative (a negative bound would make the
    /// saturation interval empty).
    pub open spec fn wf(self) -> bool {
        self.fclamp >= 0
    }

    /// Builds a controller with zeroed accumulator and diagnostics.
    pub fn new(kp: i64, ki: i64, kd: i64, fclamp: i64, enabled: bool) -> (c: Controller)
        requires
            fclamp >= 0,
        ensures
            c == (Controller { kp, ki, kd, fclamp, enabled, integral: 0, last_force: 0, last_error: 0 }),
            c.wf(),
    {
        Controller { kp, ki, kd, fclamp, enabled, integral: 0, last_force: 0, last_error: 0 }
    }

    /// One controller sub-step: accumulates the integral, computes the
    /// force exactly as [`ctrl_step_model`] states, records the force and
    /// error, and returns the force. On failure the controller is
    /// unchanged. A manual override always zeroes the integral, and
    /// without an override the computed force never exceeds the clamp.
    pub fn step(&mut self, th: i64, w: i64, dt: i64, ov: Option<i64>) -> (r: Result<i64, SimError>)
        requires
            old(self).wf(),
            0 <= th < TWO_PI,
        ensures
            match r {
                Ok(f) => ctrl_step_model(*old(self), th as int, w as int, dt as int, ov) == Some(
                    (f as int, final(self).integral as int, final(self).last_error as int),
                ) && *final(self) == (Controller {
                    integral: final(self).integral,
                    last_force: f,
                    last_error: final(self).last_error,
                    ..*old(self)
                }) && (ov is Some ==> final(self).integral == 0) && ((ov is None
                    && old(self).enabled) ==> -old(self).fclamp <= f <= old(self).fclamp)
                    && final(self).wf(),
                Err(e) => e == SimError::Overflow && ctrl_step_model(
                    *old(self),
                    th as int,
                    w as int,
                    dt as int,
                    ov,
                ) is None && *final(self) == *old(self),
            },
    {
        let e = PI_FX - th;
        let i1 = match fx_mul(e, dt) {
            Some(p) => match fx_add(self.integral, p) {
                Some(v) => v,
                None => {
                    return Err(SimError::Overflow);
                },
            },
            None => {
                return Err(SimError::Overflow);
            },
        };
        let mut force: i64 = 0;
        if self.enabled {
            let raw = match self.raw_force(e, i1, w) {
                Some(v) => v,
                None => {
                    return Err(SimError::Overflow);
                },
            };
            force = if raw > self.fclamp {
                self.fclamp
            } else if raw < -self.fclamp {
                -self.fclamp
            } else {
                raw
            };
        }
        let mut integral = i1;
        if let Some(fo) = ov {
            force = fo;
            integral = 0;
        }
        self.integral = integral;
        self.last_force = force;
        self.last_error = e;
        Ok(force)
    }

    /// The unclamped PID expression `kp*e + ki*i - kd*w`, checked.
    fn raw_force(&self, e: i64, i1: i64, w: i64) -> (r: Option<i64>)
        ensures
            crate::fixed::opt_is(
                r,
                osub(
                    oadd(
                        omul(Some(self.kp as int), Some(e as int)),
                        omul(Some(self.ki as int), Some(i1 as int)),
                    ),
                    omul(Some(self.kd as int), Some(w as int)),
                ),
            ),
    {
        fx_sub(fx_add(fx_mul(self.kp, e)?, fx_mul(self.ki, i1)?)?, fx_mul(self.kd, w)?)
    }
}

} // verus!
