//! Fixed-point arithmetic and trigonometry against exact and float-checked
//! expectations.

use reactive_camera::fixed::{fx_mul, fx_div, clamp, ONE};
use reactive_camera::trig::{fx_sin, fx_cos, fx_sin_signed, fx_cos_signed,
    FULL_TURN, HALF_TURN, QUARTER_TURN};

#[test]
fn fx_mul_exact_values() {
    assert_eq!(fx_mul(2 * ONE, 3 * ONE), 6 * ONE);
    assert_eq!(fx_mul(-2 * ONE, 3 * ONE), -6 * ONE);
    assert_eq!(fx_mul(-2 * ONE, -3 * ONE), 6 * ONE);
    assert_eq!(fx_mul(ONE / 2, ONE / 2), ONE / 4);
    assert_eq!(fx_mul(0, 12345), 0);
}

#[test]
fn fx_mul_truncates_toward_zero() {
    assert_eq!(fx_mul(-1, 1), 0);
    assert_eq!(fx_mul(1, -1), 0);
    assert_eq!(fx_mul(-65537, 1), -1);
}

#[test]
fn fx_div_exact_values() {
    assert_eq!(fx_div(ONE, 2 * ONE), ONE / 2);
    assert_eq!(fx_div(-ONE, 2 * ONE), -(ONE / 2));
    assert_eq!(fx_div(3 * ONE, ONE), 3 * ONE);
    assert_eq!(fx_div(0, 7), 0);
}

#[test]
fn clamp_behaves() {
    assert_eq!(clamp(5, -3, 3), 3);
    assert_eq!(clamp(-5, -3, 3), -3);
    assert_eq!(clamp(2, -3, 3), 2);
}

#[test]
fn sin_cardinal_angles_are_exact() {
    assert_eq!(fx_sin(0), 0);
    assert_eq!(fx_sin(QUARTER_TURN), ONE);
    assert_eq!(fx_sin(HALF_TURN), 0);
    assert_eq!(fx_sin(3 * QUARTER_TURN), -ONE);
    assert_eq!(fx_cos(0), ONE);
    assert_eq!(fx_cos(QUARTER_TURN), 0);
    assert_eq!(fx_cos(HALF_TURN), -ONE);
}

#[test]
fn sin_tracks_the_real_sine_closely() {
    let mut x: i64 = 0;
    while x < FULL_TURN {
        let approx = fx_sin(x) as f64 / ONE as f64;
        let exact = (x as f64 / FULL_TURN as f64 * 2.0 * std::f64::consts::PI).sin();
        assert!((approx - exact).abs() < 0.002, "sin off at {}: {} vs {}", x, approx, exact);
        let approx_c = fx_cos(x) as f64 / ONE as f64;
        let exact_c = (x as f64 / FULL_TURN as f64 * 2.0 * std::f64::consts::PI).cos();
        assert!((approx_c - exact_c).abs() < 0.002, "cos off at {}", x);
        x += 97;
    }
}

#[test]
fn signed_sine_is_odd_and_cosine_even() {
    for &x in &[1i64, 500, 16384, 30000, 65535] {
        assert_eq!(fx_sin_signed(-x), -fx_sin_signed(x));
        assert_eq!(fx_cos_signed(-x), fx_cos_signed(x));
    }
}
