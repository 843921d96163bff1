// Tests of the rotation math utilities: trigonometry accuracy, the Euler
// conversions, and the vector-alignment identities.

use reachy_mini_control::fixed::{fx_sqrt, FX_ONE};
use reachy_mini_control::linalg::{m3_mul_v3, M3, V3};
use reachy_mini_control::rotation::{
    align_vectors, euler_from_rotation_xyz, rotation_from_euler_xyz, KinError,
};
use reachy_mini_control::trig::{fx_asin, fx_atan2, fx_cos, fx_sin};

const SCALE: f64 = 4294967296.0;

fn fx(v: f64) -> i64 {
    (v * SCALE).round() as i64
}

fn to_f64(v: i64) -> f64 {
    v as f64 / SCALE
}

#[test]
fn sine_and_cosine_match_the_reference() {
    for &x in &[0.0, 0.3, 1.0, -2.5, 3.1, 6.5, -7.2, 100.0, -0.0001] {
        assert!((to_f64(fx_sin(fx(x))) - x.sin()).abs() < 1e-6, "sin({})", x);
        assert!((to_f64(fx_cos(fx(x))) - x.cos()).abs() < 1e-6, "cos({})", x);
    }
}

#[test]
fn arc_functions_match_the_reference() {
    for &(y, x) in &[(0.5, 1.0), (1.0, 0.001), (-3.0, -2.0), (0.0, -1.0), (2.0, -0.3)] {
        assert!(
            (to_f64(fx_atan2(fx(y), fx(x))) - y.atan2(x)).abs() < 1e-6,
            "atan2({}, {})",
            y,
            x
        );
    }
    for &t in &[0.0, 0.5, -0.99, 0.9999] {
        assert!((to_f64(fx_asin(fx(t))) - t.asin()).abs() < 1e-5, "asin({})", t);
    }
    assert_eq!(fx_atan2(0, 0), 0);
}

#[test]
fn square_root_is_exact_on_squares() {
    assert_eq!(fx_sqrt(FX_ONE), FX_ONE); // sqrt(1) == 1
    assert_eq!(fx_sqrt(4 * FX_ONE), 2 * FX_ONE); // sqrt(4) == 2
    assert_eq!(fx_sqrt(0), 0);
}

#[test]
fn euler_round_trip_on_single_axis_rotations() {
    // The construction composes Rz*Ry*Rx while the extraction inverts
    // Rx*Ry*Rz, so the round trip holds where the two agree: when at most
    // one angle is nonzero (and |sin(y)| is away from 1).
    for &(x, y, z) in &[
        (0.3, 0.0, 0.0),
        (-1.2, 0.0, 0.0),
        (0.0, 0.5, 0.0),
        (0.0, -1.1, 0.0),
        (0.0, 0.0, 2.0),
        (0.0, 0.0, -0.7),
        (0.0, 0.0, 0.0),
    ] {
        let m = rotation_from_euler_xyz(fx(x), fx(y), fx(z));
        let e = euler_from_rotation_xyz(&m);
        assert!((to_f64(e.x) - x).abs() < 1e-4, "x: {} vs {}", to_f64(e.x), x);
        assert!((to_f64(e.y) - y).abs() < 1e-4, "y: {} vs {}", to_f64(e.y), y);
        assert!((to_f64(e.z) - z).abs() < 1e-4, "z: {} vs {}", to_f64(e.z), z);
    }
}

#[test]
fn euler_extraction_pins_gimbal_lock() {
    // A rotation with sin(y) == 1 exactly: the extraction takes the gimbal
    // branch and pins z to 0.
    let m = rotation_from_euler_xyz(0, fx(std::f64::consts::FRAC_PI_2), 0);
    let e = euler_from_rotation_xyz(&m);
    assert!((to_f64(e.y) - std::f64::consts::FRAC_PI_2).abs() < 1e-4);
    assert_eq!(e.z, 0);
}

fn v(x: f64, y: f64, z: f64) -> V3 {
    V3 { x: fx(x), y: fx(y), z: fx(z) }
}

fn identity() -> M3 {
    M3 { m00: FX_ONE, m01: 0, m02: 0, m10: 0, m11: FX_ONE, m12: 0, m20: 0, m21: 0, m22: FX_ONE }
}

#[test]
fn aligning_a_vector_with_itself_is_the_identity() {
    for &w in &[v(1.0, 2.0, 3.0), v(0.0, 0.0, 1.0), v(-5.0, 0.1, 0.0), v(0.001, 0.0, 0.0)] {
        assert_eq!(align_vectors(&w, &w).unwrap(), identity());
    }
}

#[test]
fn aligning_with_the_opposite_vector_flips_it() {
    for &w in &[v(1.0, 2.0, 3.0), v(0.0, 0.0, 1.0), v(1.0, 0.0, 0.0), v(-5.0, 0.1, 0.0)] {
        let neg = V3 { x: -w.x, y: -w.y, z: -w.z };
        let r = align_vectors(&w, &neg).unwrap();
        // The unit direction of w, mapped through r, lands on its negation.
        let norm = (to_f64(w.x).powi(2) + to_f64(w.y).powi(2) + to_f64(w.z).powi(2)).sqrt();
        let u = v(to_f64(w.x) / norm, to_f64(w.y) / norm, to_f64(w.z) / norm);
        let ru = m3_mul_v3(r, u);
        assert!((to_f64(ru.x) + to_f64(u.x)).abs() < 1e-4);
        assert!((to_f64(ru.y) + to_f64(u.y)).abs() < 1e-4);
        assert!((to_f64(ru.z) + to_f64(u.z)).abs() < 1e-4);
        // And r is orthonormal with determinant close to +1.
        let det = to_f64(r.m00) * (to_f64(r.m11) * to_f64(r.m22) - to_f64(r.m12) * to_f64(r.m21))
            - to_f64(r.m01) * (to_f64(r.m10) * to_f64(r.m22) - to_f64(r.m12) * to_f64(r.m20))
            + to_f64(r.m02) * (to_f64(r.m10) * to_f64(r.m21) - to_f64(r.m11) * to_f64(r.m20));
        assert!((det - 1.0).abs() < 1e-3, "det {}", det);
    }
}

#[test]
fn aligning_a_zero_vector_is_an_unreachable_configuration() {
    let zero = V3 { x: 0, y: 0, z: 0 };
    let some = v(1.0, 0.0, 0.0);
    assert_eq!(align_vectors(&zero, &some), Err(KinError::UnreachableConfiguration));
    assert_eq!(align_vectors(&some, &zero), Err(KinError::UnreachableConfiguration));
}

#[test]
fn aligning_perpendicular_axes_rotates_by_a_quarter_turn() {
    let x = v(1.0, 0.0, 0.0);
    let y = v(0.0, 1.0, 0.0);
    let r = align_vectors(&x, &y).unwrap();
    let rx = m3_mul_v3(r, x);
    assert!((to_f64(rx.x)).abs() < 1e-4);
    assert!((to_f64(rx.y) - 1.0).abs() < 1e-4);
    assert!((to_f64(rx.z)).abs() < 1e-4);
}
