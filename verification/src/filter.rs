//! Second-order critically-tunable smoothing filter.
//!
//! The filter tracks a driving signal `(x, xv)` with smoothed position `y`
//! and velocity `yv`. Its three constants derive once, at construction,
//! from a frequency `f`, a damping ratio `z` and a response `r`:
//! `k1 = z/(pi*f)`, `k2 = 1/(4*pi^2*f^2)`, `k3 = r*z/(2*pi*f)`. Each
//! update is a semi-implicit Euler step with a stability floor on `k2`
//! whose exact three-term form is part of the contract.

use vstd::prelude::*;
use crate::fault::SimError;
use crate::fixed::{
    fx_add, fx_div, fx_mul, fx_sub, oadd, odiv, omul, osub, opt_is, HALF_UNIT, QUARTER_UNIT,
};
use crate::trig::PI_FX;

verus! {

/// Smoothing-filter state: the tracked coordinate `y`, its velocity `yv`,
/// and the three derived constants.
#[derive(Clone, Copy, Debug, PartialEq, Eq, Structural)]
pub struct TrackingFilter {
    pub y: i64,
    pub yv: i64,
    pub k1: i64,
    pub k2: i64,
    pub k3: i64,
}

/// The derived constants `(k1, k2, k3)` for `(f, z, r)`, or `None` when a
/// checked operation fails (an unrepresentably extreme frequency).
pub open spec fn filter_consts_model(f: int, z: int, r: int) -> Option<(int, int, int)> {
    let pif = omul(Some(PI_FX as int), Some(f));
    let k1 = odiv(Some(z), pif);
    let den = omul(omul(omul(Some(PI_FX as int), Some(PI_FX as int)), Some(f)), Some(f));
    let k2 = odiv(Some(QUARTER_UNIT as int), den);
    let k3 = odiv(omul(omul(Some(r), Some(z)), Some(HALF_UNIT as int)), pif);
    match (k1, k2, k3) {
        (Some(a), Some(b), Some(c)) => Some((a, b, c)),
        _ => None,
    }
}

/// The new `(y, yv)` after one update from `(x, xv)` over `dt`:
/// ```text
/// k2_eff = max(k2, k1*dt, 0.5*dt*dt + 0.5*dt*k1)
/// y  += dt*yv
/// yv += dt*(x + k3*xv - y - k1*yv) / k2_eff
/// ```
/// (the updated `y` feeds the `yv` increment), or `None` when a checked
/// operation fails.
pub open spec fn filter_update_model(fl: TrackingFilter, x: int, xv: int, dt: int) -> Option<
    (int, int),
> {
    let a = omul(Some(fl.k1 as int), Some(dt));
    let b = oadd(
        omul(omul(Some(HALF_UNIT as int), Some(dt)), Some(dt)),
        omul(omul(Some(HALF_UNIT as int), Some(dt)), Some(fl.k1 as int)),
    );
    match (a, b) {
        (Some(a), Some(b)) => {
            let k2e = if fl.k2 as int >= a && fl.k2 as int >= b {
                fl.k2 as int
            } else if a >= b {
                a
            } else {
                b
            };
            match oadd(Some(fl.y as int), omul(Some(dt), Some(fl.yv as int))) {
                None => None,
                Some(y2) => {
                    let expr = osub(
                        osub(oadd(Some(x), omul(Some(fl.k3 as int), Some(xv))), Some(y2)),
                        omul(Some(fl.k1 as int), Some(fl.yv as int)),
                    );
                    match odiv(omul(Some(dt), expr), Some(k2e)) {
                        None => None,
                        Some(inc) => match oadd(Some(fl.yv as int), Some(inc)) {
                            None => None,
                            Some(yv2) => Some((y2, yv2)),
                        },
                    }
                },
            }
        },
        _ => None,
    }
}

impl Default for TrackingFilter {
    /// The standard presentation filter: frequency `1.5`, damping ratio
    /// `0.75`, no response term, starting at the origin. The constants
    /// are exactly those [`filter_consts_model`] derives for that tuning.
    fn default() -> (fl: TrackingFilter)
        ensures
            fl == (TrackingFilter { y: 0, yv: 0, k1: 159_154_943, k2: 11_257_909, k3: 0 }),
            filter_consts_model(1_500_000_000, 750_000_000, 0) == Some(
                (fl.k1 as int, fl.k2 as int, fl.k3 as int),
            ),
    {
        proof {
            assert(crate::fixed::mul_val(PI_FX as int, 1_500_000_000) == 4_712_388_981) by (nonlinear_arith);
            assert(crate::fixed::div_val(750_000_000, 4_712_388_981) == 159_154_943) by (nonlinear_arith);
            assert(crate::fixed::mul_val(PI_FX as int, PI_FX as int) == 9_869_604_403) by (nonlinear_arith);
            assert(crate::fixed::mul_val(9_869_604_403, 1_500_000_000) == 14_804_406_604) by (nonlinear_arith);
            assert(crate::fixed::mul_val(14_804_406_604, 1_500_000_000) == 22_206_609_906) by (nonlinear_arith);
            assert(crate::fixed::div_val(QUARTER_UNIT as int, 22_206_609_906) == 11_257_909) by (nonlinear_arith);
        }
        TrackingFilter { y: 0, yv: 0, k1: 159_154_943, k2: 11_257_909, k3: 0 }
    }
}

impl TrackingFilter {
    /// Builds a filter from frequency `f`, damping ratio `z`, response `r`
    /// and initial coordinate `init`. A non-positive frequency is rejected
    /// as configuration error; an unrepresentable constant is `Overflow`.
    pub fn new(f: i64, z: i64, r: i64, init: i64) -> (res: Result<TrackingFilter, SimError>)
        ensures
            match res {
                Ok(fl) => f > 0 && filter_consts_model(f as int, z as int, r as int) == Some(
                    (fl.k1 as int, fl.k2 as int, fl.k3 as int),
                ) && fl.y == init && fl.yv == 0,
                Err(e) => (e == SimError::InvalidConfig && f <= 0) || (e == SimError::Overflow && f
                    > 0 && filter_consts_model(f as int, z as int, r as int) is None),
            },
    {
        if f <= 0 {
            return Err(SimError::InvalidConfig);
        }
        match Self::consts(f, z, r) {
            Some((k1, k2, k3)) => Ok(TrackingFilter { y: init, yv: 0, k1, k2, k3 }),
            None => Err(SimError::Overflow),
        }
    }

    /// The checked derived constants.
    fn consts(f: i64, z: i64, r: i64) -> (res: Option<(i64, i64, i64)>)
        ensures
            match res {
                Some(k) => filter_consts_model(f as int, z as int, r as int) == Some(
                    (k.0 as int, k.1 as int, k.2 as int),
                ),
                None => filter_consts_model(f as int, z as int, r as int) is None,
            },
    {
        let pif = fx_mul(PI_FX, f)?;
        let k1 = fx_div(z, pif)?;
        let den = fx_mul(fx_mul(fx_mul(PI_FX, PI_FX)?, f)?, f)?;
        let k2 = fx_div(QUARTER_UNIT, den)?;
        let k3 = fx_div(fx_mul(fx_mul(r, z)?, HALF_UNIT)?, pif)?;
        Some((k1, k2, k3))
    }

    /// One smoothing step driven by `(x, xv)` over `dt`, exactly as
    /// [`filter_update_model`] states; on failure the filter is unchanged.
    pub fn update(&mut self, x: i64, xv: i64, dt: i64) -> (res: Result<(), SimError>)
        ensures
            match res {
                Ok(()) => filter_update_model(*old(self), x as int, xv as int, dt as int) == Some(
                    (final(self).y as int, final(self).yv as int),
                ) && *final(self) == (TrackingFilter {
                    y: final(self).y,
                    yv: final(self).yv,
                    ..*old(self)
                }),
                Err(e) => e == SimError::Overflow && filter_update_model(
                    *old(self),
                    x as int,
                    xv as int,
                    dt as int,
                ) is None && *final(self) == *old(self),
            },
    {
        let a = match fx_mul(self.k1, dt) {
            Some(v) => v,
            None => {
                return Err(SimError::Overflow);
            },
        };
        let b = match Self::floor_term(self.k1, dt) {
            Some(v) => v,
            None => {
                return Err(SimError::Overflow);
            },
        };
        let k2e = if self.k2 >= a && self.k2 >= b {
            self.k2
        } else if a >= b {
            a
        } else {
            b
        };
        let y2 = match fx_mul(dt, self.yv) {
            Some(p) => match fx_add(self.y, p) {
                Some(v) => v,
                None => {
                    return Err(SimError::Overflow);
                },
            },
            None => {
                return Err(SimError::Overflow);
            },
        };
        let inc = match Self::drive_term(self.k1, self.k3, x, xv, y2, self.yv, dt, k2e) {
            Some(v) => v,
            None => {
                return Err(SimError::Overflow);
            },
        };
        let yv2 = match fx_add(self.yv, inc) {
            Some(v) => v,
            None => {
                return Err(SimError::Overflow);
            },
        };
        self.y = y2;
        self.yv = yv2;
        Ok(())
    }

    /// The quadratic stability-floor term `0.5*dt*dt + 0.5*dt*k1`.
    fn floor_term(k1: i64, dt: i64) -> (r: Option<i64>)
        ensures
            opt_is(
                r,
                oadd(
                    omul(omul(Some(HALF_UNIT as int), Some(dt as int)), Some(dt as int)),
                    omul(omul(Some(HALF_UNIT as int), Some(dt as int)), Some(k1 as int)),
                ),
            ),
    {
        fx_add(fx_mul(fx_mul(HALF_UNIT, dt)?, dt)?, fx_mul(fx_mul(HALF_UNIT, dt)?, k1)?)
    }

    /// The velocity increment `dt*(x + k3*xv - y - k1*yv) / k2e`.
    fn drive_term(k1: i64, k3: i64, x: i64, xv: i64, y2: i64, yv: i64, dt: i64, k2e: i64) -> (r:
        Option<i64>)
        ensures
            opt_is(
                r,
                odiv(
                    omul(
                        Some(dt as int),
                        osub(
                            osub(
                                oadd(Some(x as int), omul(Some(k3 as int), Some(xv as int))),
                                Some(y2 as int),
                            ),
                            omul(Some(k1 as int), Some(yv as int)),
                        ),
                    ),
                    Some(k2e as int),
                ),
            ),
    {
        let expr = fx_sub(fx_sub(fx_add(x, fx_mul(k3, xv)?)?, y2)?, fx_mul(k1, yv)?)?;
        fx_div(fx_mul(dt, expr)?, k2e)
    }
}

} // verus!
