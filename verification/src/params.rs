//! Physical configuration of the cart-pendulum-wheel assembly and the
//! effective masses derived from it.

use vstd::prelude::*;
use crate::fault::SimError;
use crate::fixed::{fits, tdiv};

verus! {

/// Physical parameters, each in fixed-point units: masses of the cart, the
/// pendulum bob, the rod and one wheel, the rod length, the wheel radius,
/// the gravitational constant, and the linear / angular damping
/// coefficients.
#[derive(Clone, Copy, Debug, PartialEq, Eq, Structural)]
pub struct Params {
    pub m_cart: i64,
    pub m_bob: i64,
    pub m_rod: i64,
    pub m_wheel: i64,
    pub length: i64,
    pub radius: i64,
    pub gravity: i64,
    pub damp_lin: i64,
    pub damp_ang: i64,
}

/// Effective translational inertia:
/// `m_bob + m_cart + m_rod + 3 * m_wheel`.
pub open spec fn m1_val(p: Params) -> int {
    p.m_bob + p.m_cart + p.m_rod + 3 * p.m_wheel
}

/// Effective pendulum inertia: `m_bob + m_rod / 3`.
pub open spec fn m2_val(p: Params) -> int {
    p.m_bob + tdiv(p.m_rod as int, 3)
}

/// Effective coupling mass: `m_bob + m_rod / 2`.
pub open spec fn m3_val(p: Params) -> int {
    p.m_bob + tdiv(p.m_rod as int, 2)
}

impl Default for Params {
    /// The session's standard configuration: a `5` cart carrying a `0.5`
    /// bob on a unit rod of mass `1`, wheels of mass `1` and radius
    /// `0.1`, standard gravity, and light damping.
    fn default() -> (p: Params)
        ensures
            p == (Params {
                m_cart: 5_000_000_000,
                m_bob: 500_000_000,
                m_rod: 1_000_000_000,
                m_wheel: 1_000_000_000,
                length: 1_000_000_000,
                radius: 100_000_000,
                gravity: 9_806_650_000,
                damp_lin: 10_000_000,
                damp_ang: 5_000_000,
            }),
            p.valid(),
    {
        Params {
            m_cart: 5_000_000_000,
            m_bob: 500_000_000,
            m_rod: 1_000_000_000,
            m_wheel: 1_000_000_000,
            length: 1_000_000_000,
            radius: 100_000_000,
            gravity: 9_806_650_000,
            damp_lin: 10_000_000,
            damp_ang: 5_000_000,
        }
    }
}

impl Params {
    /// Every mass, the length and the radius are strictly positive.
    pub open spec fn valid(self) -> bool {
        self.m_cart > 0 && self.m_bob > 0 && self.m_rod > 0 && self.m_wheel > 0 && self.length > 0
            && self.radius > 0
    }

    /// Whether the derived effective masses are representable; for valid
    /// parameters the largest of them is `m1`.
    pub open spec fn masses_fit(self) -> bool {
        fits(m1_val(self))
    }

    /// Builds a configuration, rejecting any non-positive mass, length or
    /// radius.
    pub fn new(
        m_cart: i64,
        m_bob: i64,
        m_rod: i64,
        m_wheel: i64,
        length: i64,
        radius: i64,
        gravity: i64,
        damp_lin: i64,
        damp_ang: i64,
    ) -> (r: Result<Params, SimError>)
        ensures
            match r {
                Ok(p) => p == (Params {
                    m_cart,
                    m_bob,
                    m_rod,
                    m_wheel,
                    length,
                    radius,
                    gravity,
                    damp_lin,
                    damp_ang,
                }) && p.valid(),
                Err(e) => e == SimError::InvalidConfig && !(m_cart > 0 && m_bob > 0 && m_rod > 0
                    && m_wheel > 0 && length > 0 && radius > 0),
            },
    {
        if m_cart > 0 && m_bob > 0 && m_rod > 0 && m_wheel > 0 && length > 0 && radius > 0 {
            Ok(Params { m_cart, m_bob, m_rod, m_wheel, length, radius, gravity, damp_lin, damp_ang })
        } else {
            Err(SimError::InvalidConfig)
        }
    }

    /// The effective masses `(m1, m2, m3)` of the Lagrangian model, or
    /// `Overflow` when they leave the representable range.
    pub fn effective_masses(&self) -> (r: Result<(i64, i64, i64), SimError>)
        requires
            self.valid(),
        ensures
            match r {
                Ok(m) => self.masses_fit() && m.0 == m1_val(*self) && m.1 == m2_val(*self) && m.2
                    == m3_val(*self),
                Err(e) => e == SimError::Overflow && !self.masses_fit(),
            },
    {
        let w3 = match self.m_wheel.checked_mul(3) {
            Some(v) => v,
            None => {
                return Err(SimError::Overflow);
            },
        };
        let s1 = match self.m_bob.checked_add(self.m_cart) {
            Some(v) => v,
            None => {
                return Err(SimError::Overflow);
            },
        };
        let s2 = match s1.checked_add(self.m_rod) {
            Some(v) => v,
            None => {
                return Err(SimError::Overflow);
            },
        };
        let m1 = match s2.checked_add(w3) {
            Some(v) => v,
            None => {
                return Err(SimError::Overflow);
            },
        };
        let m2 = self.m_bob + self.m_rod / 3;
        let m3 = self.m_bob + self.m_rod / 2;
        Ok((m1, m2, m3))
    }
}

} // verus!
