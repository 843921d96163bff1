// Scenario tests of the passive-joint solver, checked against the reference
// outputs of the mechanism. Values convert between f64 radians and the
// library's Q32 fixed-point scalars at the test boundary.

use reachy_mini_control::rotation::KinError;
use reachy_mini_control::solver::calculate_passive_joints;

const SCALE: f64 = 4294967296.0;

fn fx(v: f64) -> i64 {
    (v * SCALE).round() as i64
}

fn to_f64(v: i64) -> f64 {
    v as f64 / SCALE
}

fn solve(joints: &[f64], pose: &[f64]) -> Vec<f64> {
    let j: Vec<i64> = joints.iter().map(|&v| fx(v)).collect();
    let p: Vec<i64> = pose.iter().map(|&v| fx(v)).collect();
    calculate_passive_joints(&j, &p)
        .expect("well-formed configuration")
        .iter()
        .map(|&v| to_f64(v))
        .collect()
}

#[test]
fn test_identity_pose_zero_joints() {
    // Test: Identity pose, zero joints
    let head_joints = [0.0, 0.0, 0.0, 0.0, 0.0, 0.0, 0.0];
    let head_pose = [
        1.0, 0.0, 0.0, 0.0, 0.0, 1.0, 0.0, 0.0, 0.0, 0.0, 1.0, 0.0, 0.0, 0.0, 0.0, 1.0,
    ];
    let expected = [
        0.0022508907, 0.0362949623, -0.1238610683, -0.0222426253, 0.0013675279, -0.1273488284,
        -0.0036008297, -0.0641988484, -0.1120216899, 0.0018793787, -0.0298951753, 0.1255567074,
        -0.0021551464, -0.0346164750, -0.1243428060, 0.0018360718, 0.0291668900, -0.1257263345,
        0.0018226962, 0.0291985444, -0.1257131448,
    ];

    let result = solve(&head_joints, &head_pose);
    assert_eq!(result.len(), 21);

    let tolerance = 0.01; // Allow 1% error
    for i in 0..21 {
        let diff = (result[i] - expected[i]).abs();
        assert!(
            diff < tolerance,
            "Mismatch at index {}: got {}, expected {}, diff {}",
            i,
            result[i],
            expected[i],
            diff
        );
    }
}

#[test]
fn test_small_body_yaw() {
    // Test: Small body yaw
    let head_joints = [0.1, 0.0, 0.0, 0.0, 0.0, 0.0, 0.0];
    let head_pose = [
        1.0, 0.0, 0.0, 0.0, 0.0, 1.0, 0.0, 0.0, 0.0, 0.0, 1.0, 0.0, 0.0, 0.0, 0.0, 1.0,
    ];
    let expected = [
        0.0023094851, 0.0309104488, -0.1491418088, -0.0265536010, -0.0035773668, -0.1030629683,
        -0.0044785419, -0.0648270895, -0.1379017245, 0.0017013496, -0.0337621624, 0.1006896894,
        -0.0021646104, -0.0288928516, -0.1495473876, 0.0016750546, 0.0331768126, -0.1008825400,
        0.0920552079, 0.0746590292, -0.0940957704,
    ];

    let result = solve(&head_joints, &head_pose);
    assert_eq!(result.len(), 21);

    let tolerance = 0.01;
    for i in 0..21 {
        let diff = (result[i] - expected[i]).abs();
        assert!(
            diff < tolerance,
            "Mismatch at index {}: got {}, expected {}, diff {}",
            i,
            result[i],
            expected[i],
            diff
        );
    }
}

#[test]
fn test_all_stewart_joints() {
    // Test: All stewart joints at 0.5
    let head_joints = [0.0, 0.5, 0.5, 0.5, 0.5, 0.5, 0.5];
    let head_pose = [
        1.0, 0.0, 0.0, 0.0, 0.0, 1.0, 0.0, 0.0, 0.0, 0.0, 1.0, 0.0, 0.0, 0.0, 0.0, 1.0,
    ];
    let expected = [
        0.0201470224, 0.0664757285, -0.5883623150, -0.0050969762, -0.0349257327, 0.2740303711,
        -0.0565607056, -0.1953238381, -0.5621706414, -0.0002505518, -0.0018002749,
        -0.2765717423, -0.0178861002, -0.0589442498, -0.5890751964, -0.0004703285, 0.0033795988,
        0.2765574117, 0.0420138661, 0.0441513789, -0.2210345269,
    ];

    let result = solve(&head_joints, &head_pose);
    assert_eq!(result.len(), 21);

    let tolerance = 0.01;
    for i in 0..21 {
        let diff = (result[i] - expected[i]).abs();
        assert!(
            diff < tolerance,
            "Mismatch at index {}: got {}, expected {}, diff {}",
            i,
            result[i],
            expected[i],
            diff
        );
    }
}

#[test]
fn solve_is_deterministic() {
    let j: Vec<i64> = vec![fx(0.07), fx(0.2), fx(-0.1), fx(0.3), fx(0.0), fx(0.5), fx(-0.4)];
    let p: Vec<i64> = vec![
        fx(1.0), fx(0.0), fx(0.0), fx(0.01),
        fx(0.0), fx(1.0), fx(0.0), fx(-0.02),
        fx(0.0), fx(0.0), fx(1.0), fx(0.005),
        fx(0.0), fx(0.0), fx(0.0), fx(1.0),
    ];
    let a = calculate_passive_joints(&j, &p).unwrap();
    let b = calculate_passive_joints(&j, &p).unwrap();
    assert_eq!(a, b);
}

#[test]
fn short_joints_fall_back_to_zeros() {
    let j: Vec<i64> = vec![0, 0, 0, 0, 0, 0]; // only 6 joints
    let p: Vec<i64> = vec![fx(1.0); 16];
    let out = calculate_passive_joints(&j, &p).unwrap();
    assert_eq!(out, vec![0i64; 21]);
}

#[test]
fn short_pose_falls_back_to_zeros() {
    let j: Vec<i64> = vec![0; 7];
    let p: Vec<i64> = vec![fx(1.0); 15]; // only 15 pose entries
    let out = calculate_passive_joints(&j, &p).unwrap();
    assert_eq!(out, vec![0i64; 21]);
}

#[test]
fn a_degenerate_pose_is_an_unreachable_configuration() {
    // A pose whose translation puts the first leg's branch anchor exactly on
    // its servo-arm tip: the rod direction has zero length, and the solver
    // reports the configuration instead of dividing by zero.
    let one: i64 = 4294967296; // fixed-point 1
    let j: Vec<i64> = vec![0; 7];
    let p: Vec<i64> = vec![
        one, 0, 0, 176022325,
        0, one, 0, -64488296,
        0, 0, one, -431072729,
        0, 0, 0, one,
    ];
    assert_eq!(calculate_passive_joints(&j, &p), Err(KinError::UnreachableConfiguration));
}
