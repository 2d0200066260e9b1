//! Fixed-point arithmetic, trigonometry and state-vector basics.

use cartpole::fixed::{fx_add, fx_div, fx_mul, fx_sub, SCALE};
use cartpole::state::{Deriv, State};
use cartpole::trig::{cos_fx, sin_fx, HALF_PI, PI_FX, TWO_PI};

#[test]
fn mul_scales_and_truncates() {
    assert_eq!(fx_mul(3 * SCALE, 2 * SCALE), Some(6 * SCALE));
    assert_eq!(fx_mul(-1_500_000_000, 333_333_333), Some(-499_999_999));
    assert_eq!(fx_mul(0, i64::MAX), Some(0));
    assert_eq!(fx_mul(i64::MAX, i64::MAX), None);
}

#[test]
fn div_scales_and_truncates() {
    assert_eq!(fx_div(SCALE, 3 * SCALE), Some(333_333_333));
    assert_eq!(fx_div(-SCALE, 3 * SCALE), Some(-333_333_333));
    assert_eq!(fx_div(5, 0), None);
    assert_eq!(fx_div(i64::MAX, 1), None);
    assert_eq!(fx_div(1, SCALE), Some(1));
}

#[test]
fn add_sub_are_checked() {
    assert_eq!(fx_add(1, 2), Some(3));
    assert_eq!(fx_add(i64::MAX, 1), None);
    assert_eq!(fx_sub(i64::MIN, 1), None);
    assert_eq!(fx_sub(5, 7), Some(-2));
}

#[test]
fn trig_cardinal_angles_are_exact() {
    assert_eq!(sin_fx(0), 0);
    assert_eq!(cos_fx(0), SCALE);
    assert_eq!(sin_fx(HALF_PI), SCALE);
    assert_eq!(sin_fx(PI_FX), 0);
    assert_eq!(cos_fx(PI_FX), -SCALE);
    assert_eq!(cos_fx(PI_FX + HALF_PI), 0);
}

#[test]
fn trig_general_angles() {
    assert_eq!(sin_fx(SCALE), 841_470_985);
    assert_eq!(cos_fx(SCALE), 540_302_304);
    assert_eq!(sin_fx(4 * SCALE), -756_802_495);
    assert_eq!(cos_fx(4 * SCALE), -653_643_622);
}

#[test]
fn state_from_normalizes_angle() {
    let st = State::from(0, 0, 0, -1);
    assert_eq!(st.th, TWO_PI - 1);
    let st = State::from(0, 0, 0, TWO_PI);
    assert_eq!(st.th, 0);
    let st = State::from(7, 8, 9, 3 * TWO_PI + 5);
    assert_eq!((st.x, st.v, st.w, st.th), (7, 8, 9, 5));
}

#[test]
fn state_after_applies_derivative() {
    let st = State::from(1_000_000_000, 2_000_000_000, 500_000_000, 6_000_000_000);
    let k = Deriv { xdot: 2_000_000_000, vdot: 100_000_000, thdot: 500_000_000, wdot: -300_000_000 };
    let s2 = st.after(&k, 10_000_000).unwrap();
    assert_eq!(
        (s2.x, s2.v, s2.w, s2.th),
        (1_020_000_000, 2_001_000_000, 497_000_000, 6_005_000_000)
    );
}

#[test]
fn state_after_overflow_is_reported() {
    let st = State::from(i64::MAX - 1, 0, 0, 0);
    let k = Deriv { xdot: i64::MAX, vdot: 0, thdot: 0, wdot: 0 };
    assert!(st.after(&k, 2 * SCALE).is_err());
}

#[test]
fn state_update_mutates_in_place() {
    let mut st = State::from(0, 0, 0, 0);
    let k = Deriv { xdot: SCALE, vdot: 0, thdot: 0, wdot: 0 };
    st.update(&k, SCALE).unwrap();
    assert_eq!(st.x, SCALE);
    assert_eq!(st.unpack(), (SCALE, 0, 0, 0));
}
