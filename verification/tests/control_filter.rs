//! The feedback controller (anti-windup, clamping) and the tracking
//! filter (derived constants, stability, overshoot behavior).

use cartpole::controller::Controller;
use cartpole::fault::SimError;
use cartpole::filter::TrackingFilter;
use cartpole::fixed::SCALE;
use cartpole::trig::PI_FX;

#[test]
fn controller_step_accumulates_and_computes_force() {
    let mut c = Controller::default();
    let th = PI_FX + 500_000_000;
    let f = c.step(th, 0, 2_000_000, None).unwrap();
    assert_eq!(f, -200_080_000_000);
    assert_eq!(c.integral, -1_000_000);
    assert_eq!(c.last_error, -500_000_000);
    assert_eq!(c.last_force, f);
    let f2 = c.step(th, 0, 2_000_000, None).unwrap();
    assert_eq!(f2, -200_160_000_000);
    assert_eq!(c.integral, -2_000_000);
}

#[test]
fn controller_clamps_large_forces() {
    let mut c = Controller::new(400_000_000_000, 0, 0, 10_000_000_000, true);
    // A half-radian error would ask for 200 units of force; the clamp is 10.
    let f = c.step(PI_FX + 500_000_000, 0, 1_000_000, None).unwrap();
    assert_eq!(f, -10_000_000_000);
    let f = c.step(PI_FX - 500_000_000, 0, 1_000_000, None).unwrap();
    assert_eq!(f, 10_000_000_000);
}

#[test]
fn override_zeroes_integral() {
    let mut c = Controller::default();
    let th = PI_FX + 500_000_000;
    for _ in 0..10 {
        c.step(th, 0, 2_000_000, None).unwrap();
    }
    assert_ne!(c.integral, 0);
    let f = c.step(th, 0, 2_000_000, Some(20 * SCALE)).unwrap();
    assert_eq!(f, 20 * SCALE);
    assert_eq!(c.integral, 0);
    assert_eq!(c.last_force, 20 * SCALE);
}

#[test]
fn override_works_while_disabled() {
    let mut c = Controller::new(400_000_000_000, 80_000_000_000, 25_000_000_000, 400 * SCALE, false);
    let f = c.step(PI_FX + 500_000_000, 0, 2_000_000, None).unwrap();
    assert_eq!(f, 0);
    assert_eq!(c.integral, -1_000_000);
    let f = c.step(PI_FX + 500_000_000, 0, 2_000_000, Some(-20 * SCALE)).unwrap();
    assert_eq!(f, -20 * SCALE);
    assert_eq!(c.integral, 0);
}

#[test]
fn controller_overflow_is_reported() {
    let mut c = Controller::new(i64::MAX, 0, 0, i64::MAX, true);
    let before = c;
    assert_eq!(c.step(0, 0, 0, None), Err(SimError::Overflow));
    assert_eq!(c, before);
}

#[test]
fn filter_constants_match_derivation() {
    let fl = TrackingFilter::new(1_500_000_000, 750_000_000, 0, 0).unwrap();
    assert_eq!(fl, TrackingFilter::default());
    assert_eq!((fl.k1, fl.k2, fl.k3), (159_154_943, 11_257_909, 0));
}

#[test]
fn filter_rejects_nonpositive_frequency() {
    assert_eq!(TrackingFilter::new(0, SCALE, 0, 0), Err(SimError::InvalidConfig));
    assert_eq!(TrackingFilter::new(-SCALE, SCALE, 0, 0), Err(SimError::InvalidConfig));
}

#[test]
fn filter_step_response_no_overshoot_when_critically_damped() {
    // z = 1, f = 1: the response must creep up to the input without ever
    // passing it by more than a rounding sliver.
    let mut fl = TrackingFilter::new(SCALE, SCALE, 0, 0).unwrap();
    let x = SCALE;
    let mut worst: i64 = 0;
    for _ in 0..2000 {
        fl.update(x, 0, 10_000_000).unwrap();
        if fl.y - x > worst {
            worst = fl.y - x;
        }
    }
    assert!(worst <= 1_000, "overshoot {} exceeds one millionth", worst);
    assert!((fl.y - x).abs() <= 10_000, "did not settle: y = {}", fl.y);
}

#[test]
fn filter_step_response_bounded_overshoot_when_underdamped() {
    // z = 0.5: overshoot is expected but stays under the classical
    // exp(-pi*z/sqrt(1-z^2)) ~ 16.3% bound (with headroom to 20%).
    let mut fl = TrackingFilter::new(SCALE, 500_000_000, 0, 0).unwrap();
    let x = SCALE;
    let mut peak: i64 = 0;
    for _ in 0..2000 {
        fl.update(x, 0, 10_000_000).unwrap();
        if fl.y > peak {
            peak = fl.y;
        }
    }
    assert!(peak > x, "no overshoot at all: peak = {}", peak);
    assert!(peak <= x + x / 5, "overshoot too large: peak = {}", peak);
    assert!((fl.y - x).abs() <= 10_000, "did not settle: y = {}", fl.y);
}
