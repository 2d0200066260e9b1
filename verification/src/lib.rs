//! Cart-pole simulation core: a cart on wheels carrying an inverted
//! pendulum, advanced in real time by an explicit integrator, stabilized by a
//! PID feedback law, and tracked by a second-order smoothing filter.
//!
//! All physical quantities are held in a deterministic fixed-point
//! representation (see [`fixed`]), so every computation is exact integer
//! arithmetic and each function's contract pins down its result completely.

pub mod controller;
pub mod dynamics;
pub mod energy;
pub mod fault;
pub mod filter;
pub mod fixed;
pub mod integrator;
pub mod params;
pub mod sim;
pub mod state;
pub mod trig;
