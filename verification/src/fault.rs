//! The ways a simulation step can fail.
//!
//! A failing operation never commits a partial result: callers either get a
//! fully updated value or the error below, so no out-of-range number ever
//! reaches the state vector.

use vstd::prelude::*;

verus! {

/// Failure signal of the simulation core.
#[derive(Clone, Copy, Debug, PartialEq, Eq, Structural)]
pub enum SimError {
    /// A configuration value was rejected: a non-positive mass, length,
    /// radius, or filter frequency.
    InvalidConfig,
    /// The dynamics denominator came too close to zero for a trustworthy
    /// division (a degenerate parameter/angle combination).
    Singular,
    /// A computed quantity left the representable fixed-point range, or a
    /// derived divisor vanished entirely.
    Overflow,
}

} // verus!
