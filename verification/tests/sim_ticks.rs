//! Whole-simulation ticks: sub-step counting, angle wrapping, energy
//! drift of the two schemes, controller convergence, anti-windup.

use cartpole::controller::Controller;
use cartpole::filter::TrackingFilter;
use cartpole::fixed::SCALE;
use cartpole::integrator::{substep_count, Integrator};
use cartpole::params::Params;
use cartpole::sim::Simulation;
use cartpole::state::State;
use cartpole::trig::{PI_FX, TWO_PI};

#[test]
fn substep_count_formula() {
    // 0.05 s is over the cutoff: ceil(60 * 0.05) = 3.
    assert_eq!(substep_count(50_000_000, 5), 3);
    // 0.01 s is under the cutoff: the configured default wins.
    assert_eq!(substep_count(10_000_000, 5), 5);
    // The cutoff itself still uses the default.
    assert_eq!(substep_count(20_000_000, 7), 7);
    // Just past the cutoff the formula takes over: ceil(1.2...) = 2.
    assert_eq!(substep_count(20_000_001, 7), 2);
    // One full second: 60 sub-steps.
    assert_eq!(substep_count(1_000_000_000, 5), 60);
}

#[test]
fn one_default_tick_is_exact() {
    let mut sim = Simulation::default();
    sim.tick(10_000_000, None).unwrap();
    assert_eq!(
        (sim.state.x, sim.state.v, sim.state.w, sim.state.th),
        (-1_131_637, -225_508_410, -181_129_133, 3_640_682_862)
    );
    assert_eq!(sim.ctrl.integral, -4_997_808);
    assert_eq!(sim.ctrl.last_force, -196_533_468_265);
    assert_eq!(sim.ctrl.last_error, -499_416_654);
    assert_eq!((sim.filter.y, sim.filter.yv), (0, -1_005_160));
}

#[test]
fn one_euler_tick_is_exact() {
    let mut sim = Simulation::default();
    sim.scheme = Integrator::Euler;
    sim.tick(10_000_000, None).unwrap();
    assert_eq!(
        (sim.state.x, sim.state.v, sim.state.w, sim.state.th),
        (-906_185, -225_535_803, -181_122_394, 3_640_864_001)
    );
    assert_eq!(sim.ctrl.integral, -4_998_537);
    assert_eq!(sim.ctrl.last_force, -196_591_769_635);
}

#[test]
fn hitch_frame_divides_into_ceiled_substeps() {
    // 0.05 s is over the cutoff: three sub-steps of 0.0166... s each.
    let mut sim = Simulation::default();
    sim.tick(50_000_000, None).unwrap();
    assert_eq!(
        (sim.state.x, sim.state.v, sim.state.w, sim.state.th),
        (-27_874_050, -1_092_935_907, -877_200_442, 3_619_185_562)
    );
    assert_eq!(sim.ctrl.integral, -24_788_951);
    assert_eq!(sim.ctrl.last_force, -182_946_380_505);
    assert_eq!((sim.filter.y, sim.filter.yv), (0, -123_797_589));
}

#[test]
fn one_filter_update_is_exact() {
    let mut fl = TrackingFilter::default();
    fl.update(1_000_000_000, 2_000_000_000, 10_000_000).unwrap();
    assert_eq!((fl.y, fl.yv), (0, 888_264_419));
}

#[test]
fn nonpositive_frame_interval_is_clamped() {
    let mut a = Simulation::default();
    let mut b = Simulation::default();
    a.tick(0, None).unwrap();
    b.tick(1, None).unwrap();
    assert_eq!(a, b);
    let mut c = Simulation::default();
    c.tick(-50_000_000, None).unwrap();
    assert_eq!(a, c);
}

#[test]
fn angle_stays_wrapped_through_ticks() {
    let mut sim = Simulation::default();
    for i in 0..200u32 {
        // Mix frame hitches, pushes and quiet frames.
        let dt = if i % 7 == 0 { 50_000_000 } else { 10_000_000 };
        let ov = match i % 5 {
            0 => Some(20 * SCALE),
            1 => Some(-20 * SCALE),
            _ => None,
        };
        sim.tick(dt, ov).unwrap();
        assert!(0 <= sim.state.th && sim.state.th < TWO_PI, "angle {} escaped", sim.state.th);
    }
}

#[test]
fn energy_drift_small_with_fourth_order_scheme() {
    // Undamped, uncontrolled: 1000 sub-steps of 0.001 s must keep the
    // total energy within 0.1% of its initial value.
    let p = Params::new(
        5_000_000_000,
        500_000_000,
        1_000_000_000,
        1_000_000_000,
        1_000_000_000,
        100_000_000,
        9_806_650_000,
        0,
        0,
    )
    .unwrap();
    let ctrl = Controller::new(0, 0, 0, 0, false);
    let fl = TrackingFilter::default();
    let st = State::default();
    let mut sim = Simulation::new(st, p, ctrl, fl, Integrator::RungeKutta4, 5);
    let e0 = sim.get_total_energy().unwrap();
    for _ in 0..200 {
        sim.tick(5_000_000, None).unwrap();
    }
    let e1 = sim.get_total_energy().unwrap();
    let drift = (e1 - e0).abs() as i128;
    assert!(drift * 1000 < (e0.abs() as i128), "fourth-order drift too large: {}", drift);

    // The first-order scheme drifts monotonically, and visibly faster,
    // on the same run.
    let mut sim_e = Simulation::new(st, p, ctrl, fl, Integrator::Euler, 5);
    let mut prev = e0;
    for _ in 0..200 {
        sim_e.tick(5_000_000, None).unwrap();
        let e = sim_e.get_total_energy().unwrap();
        assert!(e >= prev, "first-order energy dipped from {} to {}", prev, e);
        prev = e;
    }
    let e2 = sim_e.get_total_energy().unwrap();
    let drift_e = (e2 - e0).abs() as i128;
    assert!(drift_e > 100 * drift, "first-order drift {} not dominant over {}", drift_e, drift);
}

#[test]
fn controller_converges_to_inverted_equilibrium() {
    // th starts 0.1 rad past upright; with the nominal gains the angle
    // must come within 1e-3 rad of pi inside 5 simulated seconds, and the
    // force must respect the clamp at every sub-step.
    let p = Params::default();
    let ctrl = Controller::new(
        450 * SCALE,
        200 * SCALE,
        90 * SCALE,
        10_000 * SCALE,
        true,
    );
    let st = State::from(0, 0, 0, PI_FX + 100_000_000);
    let mut sim = Simulation::new(st, p, ctrl, TrackingFilter::default(), Integrator::RungeKutta4, 5);
    for _ in 0..500 {
        sim.tick(10_000_000, None).unwrap();
        assert!(sim.ctrl.last_force.abs() <= sim.ctrl.fclamp);
    }
    let off = (sim.state.th - PI_FX).abs();
    assert!(off <= 1_000_000, "angle offset {} over one millionth of pi", off);
}

#[test]
fn override_tick_leaves_zero_integral() {
    let mut sim = Simulation::default();
    for _ in 0..10 {
        sim.tick(10_000_000, None).unwrap();
    }
    assert_ne!(sim.ctrl.integral, 0);
    sim.tick(10_000_000, Some(20 * SCALE)).unwrap();
    assert_eq!(sim.ctrl.integral, 0);
    assert_eq!(sim.ctrl.last_force, 20 * SCALE);
}

#[test]
fn failed_tick_changes_nothing() {
    // A controller with an absurd gain on a saturated accumulator
    // overflows; the simulation must be exactly as before the tick.
    let mut sim = Simulation::default();
    sim.ctrl.ki = i64::MAX;
    sim.ctrl.integral = i64::MAX;
    let before = sim;
    assert!(sim.tick(10_000_000, None).is_err());
    assert_eq!(sim, before);
}
