//! The dynamics model: fixed point, exact derivatives, singularity
//! detection, configuration rejection, and the energy diagnostics.

use cartpole::dynamics::derivative;
use cartpole::energy::{kinetic_energy, potential_energy, total_energy};
use cartpole::fault::SimError;
use cartpole::params::Params;
use cartpole::state::State;
use cartpole::trig::PI_FX;

fn default_params() -> Params {
    Params::default()
}

fn default_state() -> State {
    State::default()
}

#[test]
fn equilibrium_is_a_fixed_point() {
    let st = State::from(0, 0, 0, PI_FX);
    let k = derivative(&st, &default_params(), 0).unwrap();
    assert_eq!((k.xdot, k.vdot, k.thdot, k.wdot), (0, 0, 0, 0));
}

#[test]
fn derivative_at_default_state() {
    let k = derivative(&default_state(), &default_params(), 0).unwrap();
    assert_eq!((k.xdot, k.vdot, k.thdot, k.wdot), (0, 577_345_101, 0, 6_249_871_748));
}

#[test]
fn derivative_with_applied_force() {
    let k = derivative(&default_state(), &default_params(), 20_000_000_000).unwrap();
    assert_eq!((k.xdot, k.vdot, k.thdot, k.wdot), (0, 2_909_483_978, 0, 8_705_845_043));
}

#[test]
fn singular_configuration_is_detected() {
    // Vanishingly light cart, rod and wheels with a heavy bob drive the
    // denominator to 5 representation units at the downward vertical.
    let p = Params::new(1, 1_000_000_000, 1, 1, 1_000_000_000, 1_000_000_000, 9_806_650_000, 0, 0)
        .unwrap();
    let st = State::from(0, 0, 0, 0);
    assert_eq!(derivative(&st, &p, 0), Err(SimError::Singular));
}

#[test]
fn nonpositive_configuration_is_rejected() {
    let g = 9_806_650_000;
    assert_eq!(
        Params::new(0, 1, 1, 1, 1, 1, g, 0, 0),
        Err(SimError::InvalidConfig)
    );
    assert_eq!(
        Params::new(1, -5, 1, 1, 1, 1, g, 0, 0),
        Err(SimError::InvalidConfig)
    );
    assert_eq!(
        Params::new(1, 1, 0, 1, 1, 1, g, 0, 0),
        Err(SimError::InvalidConfig)
    );
    assert_eq!(
        Params::new(1, 1, 1, 0, 1, 1, g, 0, 0),
        Err(SimError::InvalidConfig)
    );
    assert_eq!(
        Params::new(1, 1, 1, 1, 0, 1, g, 0, 0),
        Err(SimError::InvalidConfig)
    );
    assert_eq!(
        Params::new(1, 1, 1, 1, 1, -1, g, 0, 0),
        Err(SimError::InvalidConfig)
    );
    assert!(Params::new(1, 1, 1, 1, 1, 1, g, -3, -4).is_ok());
}

#[test]
fn energies_at_default_state() {
    let st = default_state();
    let p = default_params();
    assert_eq!(potential_energy(&st, &p), Ok(8_606_145_031));
    assert_eq!(kinetic_energy(&st, &p), Ok(0));
    assert_eq!(total_energy(&st, &p), Ok(8_606_145_031));
}

#[test]
fn energies_at_inverted_equilibrium() {
    let st = State::from(0, 0, 0, PI_FX);
    let p = default_params();
    assert_eq!(potential_energy(&st, &p), Ok(9_806_650_000));
    assert_eq!(kinetic_energy(&st, &p), Ok(0));
    assert_eq!(total_energy(&st, &p), Ok(9_806_650_000));
}
