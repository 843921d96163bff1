//! The passive-joint solver.
//!
//! One call takes the seven joint values `[bodyYaw, leg1..leg6]` and the
//! commanded platform pose (a 4x4 homogeneous transform, row major, 16
//! scalars) and returns the 21 passive angles, three Euler angles for each of
//! the six leg ball joints and the head connector.
//!
//! The pose is first normalized: the fixed height offset is added to its
//! translation and the commanded body yaw is removed by premultiplying with
//! `Rz(-yaw)`. Each leg is then solved in order; leg 6 also hands its
//! corrected servo orientation and alignment rotation to the head-connector
//! step, the only cross-leg dependency. Inputs that are too short yield the
//! documented all-zero fallback; a degenerate geometry (a direction of zero
//! length) yields an explicit error instead of propagating garbage.
//!
//! Every function is specified exactly against a spec-level mirror, so a
//! solve is a pure function of its two inputs: repeated calls with the same
//! inputs return the same 21 values.

use vstd::prelude::*;
use crate::fixed::{FX_ONE, fx_add, fx_add_s, fx_neg, fx_neg_s};
use crate::trig::{fx_sin, fx_sin_s, fx_cos, fx_cos_s};
use crate::linalg::{M3, V3, m3_mul, m3_mul_s, m3_mul_v3, m3_mul_v3_s, m3_transpose, m3_transpose_s,
    v3_add, v3_add_s, v3_sub, v3_sub_s, v3_div_scalar, v3_div_scalar_s, v3_norm, v3_norm_s};
use crate::rotation::{KinError, align_vectors, align_vectors_s, euler_from_rotation_xyz,
    euler_from_rotation_xyz_s, rotation_from_euler_xyz, rotation_from_euler_xyz_s};
use crate::geometry::{HEAD_Z_OFFSET, MOTOR_ARM_LENGTH, motor, motor_s, joint_correction,
    joint_correction_s, rod_rest_dir, rod_rest_dir_s, head_connector_rot, head_connector_rot_s};

verus! {

/// A rigid pose: a rotation and a translation.
#[derive(Clone, Copy, Debug, PartialEq, Eq, Structural)]
pub struct Pose {
    pub rot: M3,
    pub trans: V3,
}

/// The result of one leg solve: the three Euler angles of the leg's passive
/// joint, and the data the head-connector step consumes from leg 6 (the
/// corrected servo orientation in the world frame and the rod alignment
/// rotation).
#[derive(Clone, Copy, Debug, PartialEq, Eq, Structural)]
pub struct LegSolution {
    pub angles: V3,
    pub servo_world: M3,
    pub alignment: M3,
}

/// The normalized pose: the height offset added to the translation's Z
/// component, then the commanded body yaw removed by `Rz(-yaw)`.
#[verifier::opaque]
pub open spec fn normalize_pose_s(raw: Pose, body_yaw: i64) -> Pose {
    let lifted = V3 {
        x: raw.trans.x,
        y: raw.trans.y,
        z: fx_add_s(raw.trans.z as int, HEAD_Z_OFFSET as int) as i64,
    };
    let cy = fx_cos_s(body_yaw as int) as i64;
    let sy = fx_sin_s(body_yaw as int) as i64;
    let rz_inv = M3 {
        m00: cy,
        m01: sy,
        m02: 0,
        m10: fx_neg_s(sy as int) as i64,
        m11: cy,
        m12: 0,
        m20: 0,
        m21: 0,
        m22: FX_ONE,
    };
    Pose { rot: m3_mul_s(rz_inv, raw.rot), trans: m3_mul_v3_s(rz_inv, lifted) }
}

/// Normalize a raw platform pose for the body yaw and the height offset.
pub fn normalize_pose(raw: &Pose, body_yaw: i64) -> (r: Pose)
    ensures
        r == normalize_pose_s(*raw, body_yaw),
{
    proof {
        reveal(normalize_pose_s);
    }
    let lifted = V3 { x: raw.trans.x, y: raw.trans.y, z: fx_add(raw.trans.z, HEAD_Z_OFFSET) };
    let cy = fx_cos(body_yaw);
    let sy = fx_sin(body_yaw);
    let rz_inv = M3 {
        m00: cy,
        m01: sy,
        m02: 0,
        m10: fx_neg(sy),
        m11: cy,
        m12: 0,
        m20: 0,
        m21: 0,
        m22: FX_ONE,
    };
    Pose { rot: m3_mul(rz_inv, raw.rot), trans: m3_mul_v3(rz_inv, lifted) }
}

/// One leg solve (leg index `i`, actuator angle `theta`, normalized pose):
/// the world-frame geometry of the leg, the rod direction it requires, and
/// the Euler angles of the alignment rotation. A zero-length rod direction
/// is an unreachable configuration.
#[verifier::opaque]
pub open spec fn solve_leg_s(theta: i64, pose: Pose, i: int) -> Result<LegSolution, KinError> {
    let m = motor_s(i);
    let branch_world = v3_add_s(m3_mul_v3_s(pose.rot, m.branch), pose.trans);
    let cz = fx_cos_s(theta as int) as i64;
    let sz = fx_sin_s(theta as int) as i64;
    let r_servo = M3 {
        m00: cz,
        m01: fx_neg_s(sz as int) as i64,
        m02: 0,
        m10: sz,
        m11: cz,
        m12: 0,
        m20: 0,
        m21: 0,
        m22: FX_ONE,
    };
    let corr = joint_correction_s(i);
    let corr_rot = rotation_from_euler_xyz_s(corr.x as int, corr.y as int, corr.z as int);
    let servo_local = m3_mul_v3_s(r_servo, V3 { x: MOTOR_ARM_LENGTH, y: 0, z: 0 });
    let arm_world = v3_add_s(m3_mul_v3_s(m.rot, servo_local), m.trans);
    let servo_world = m3_mul_s(m3_mul_s(m.rot, r_servo), corr_rot);
    let to_branch = v3_sub_s(branch_world, arm_world);
    let local = m3_mul_v3_s(m3_transpose_s(servo_world), to_branch);
    let n = v3_norm_s(local);
    if n == 0 {
        Err(KinError::UnreachableConfiguration)
    } else {
        let dir = v3_div_scalar_s(local, n);
        match align_vectors_s(rod_rest_dir_s(i), dir) {
            Ok(alignment) => Ok(
                LegSolution {
                    angles: euler_from_rotation_xyz_s(alignment),
                    servo_world,
                    alignment,
                },
            ),
            Err(e) => Err(e),
        }
    }
}

/// Solve one leg.
pub fn solve_leg(theta: i64, pose: &Pose, i: usize) -> (r: Result<LegSolution, KinError>)
    requires
        i < 6,
    ensures
        r == solve_leg_s(theta, *pose, i as int),
{
    proof {
        reveal(solve_leg_s);
    }
    let m = motor(i);
    let branch_world = v3_add(m3_mul_v3(pose.rot, m.branch), pose.trans);
    let cz = fx_cos(theta);
    let sz = fx_sin(theta);
    let r_servo = M3 {
        m00: cz,
        m01: fx_neg(sz),
        m02: 0,
        m10: sz,
        m11: cz,
        m12: 0,
        m20: 0,
        m21: 0,
        m22: FX_ONE,
    };
    let corr = joint_correction(i);
    let corr_rot = rotation_from_euler_xyz(corr.x, corr.y, corr.z);
    let servo_local = m3_mul_v3(r_servo, V3 { x: MOTOR_ARM_LENGTH, y: 0, z: 0 });
    let arm_world = v3_add(m3_mul_v3(m.rot, servo_local), m.trans);
    let servo_world = m3_mul(m3_mul(m.rot, r_servo), corr_rot);
    let to_branch = v3_sub(branch_world, arm_world);
    let local = m3_mul_v3(m3_transpose(servo_world), to_branch);
    let n = v3_norm(local);
    if n == 0 {
        return Err(KinError::UnreachableConfiguration);
    }
    let dir = v3_div_scalar(local, n);
    match align_vectors(&rod_rest_dir(i), &dir) {
        Ok(alignment) => Ok(
            LegSolution { angles: euler_from_rotation_xyz(&alignment), servo_world, alignment },
        ),
        Err(e) => Err(e),
    }
}

/// The head-connector solve: the desired orientation is the pose rotation
/// times the head-connector rotation; the current rod orientation is leg 6's
/// corrected servo orientation times its alignment rotation times the seventh
/// joint correction; the answer is the Euler angles of the relative rotation.
#[verifier::opaque]
pub open spec fn solve_head_s(pose: Pose, leg6: LegSolution) -> V3 {
    let desired = m3_mul_s(pose.rot, head_connector_rot_s());
    let corr = joint_correction_s(6);
    let corr_rot = rotation_from_euler_xyz_s(corr.x as int, corr.y as int, corr.z as int);
    let current = m3_mul_s(m3_mul_s(leg6.servo_world, leg6.alignment), corr_rot);
    euler_from_rotation_xyz_s(m3_mul_s(m3_transpose_s(current), desired))
}

/// Solve the seventh passive joint from leg 6's carried data.
pub fn solve_head(pose: &Pose, leg6: &LegSolution) -> (r: V3)
    ensures
        r == solve_head_s(*pose, *leg6),
{
    proof {
        reveal(solve_head_s);
    }
    let desired = m3_mul(pose.rot, head_connector_rot());
    let corr = joint_correction(6);
    let corr_rot = rotation_from_euler_xyz(corr.x, corr.y, corr.z);
    let current = m3_mul(m3_mul(leg6.servo_world, leg6.alignment), corr_rot);
    euler_from_rotation_xyz(&m3_mul(m3_transpose(current), desired))
}

/// The 21 passive angles of a full solve, or the documented fallback and
/// error cases: inputs shorter than 7 joints or 16 pose entries yield 21
/// zeros, and a degenerate geometry yields an error.
pub open spec fn calculate_passive_joints_s(joints: Seq<i64>, pose: Seq<i64>) -> Result<
    Seq<i64>,
    KinError,
> {
    if joints.len() < 7 || pose.len() < 16 {
        Ok(Seq::new(21, |i: int| 0i64))
    } else {
        let raw = Pose {
            rot: M3 {
                m00: pose[0],
                m01: pose[1],
                m02: pose[2],
                m10: pose[4],
                m11: pose[5],
                m12: pose[6],
                m20: pose[8],
                m21: pose[9],
                m22: pose[10],
            },
            trans: V3 { x: pose[3], y: pose[7], z: pose[11] },
        };
        let np = normalize_pose_s(raw, joints[0]);
        match solve_leg_s(joints[1], np, 0) {
            Err(e) => Err(e),
            Ok(l0) => match solve_leg_s(joints[2], np, 1) {
                Err(e) => Err(e),
                Ok(l1) => match solve_leg_s(joints[3], np, 2) {
                    Err(e) => Err(e),
                    Ok(l2) => match solve_leg_s(joints[4], np, 3) {
                        Err(e) => Err(e),
                        Ok(l3) => match solve_leg_s(joints[5], np, 4) {
                            Err(e) => Err(e),
                            Ok(l4) => match solve_leg_s(joints[6], np, 5) {
                                Err(e) => Err(e),
                                Ok(l5) => {
                                    let h = solve_head_s(np, l5);
                                    Ok(
                                        seq![
                                            l0.angles.x,
                                            l0.angles.y,
                                            l0.angles.z,
                                            l1.angles.x,
                                            l1.angles.y,
                                            l1.angles.z,
                                            l2.angles.x,
                                            l2.angles.y,
                                            l2.angles.z,
                                            l3.angles.x,
                                            l3.angles.y,
                                            l3.angles.z,
                                            l4.angles.x,
                                            l4.angles.y,
                                            l4.angles.z,
                                            l5.angles.x,
                                            l5.angles.y,
                                            l5.angles.z,
                                            h.x,
                                            h.y,
                                            h.z,
                                        ],
                                    )
                                },
                            },
                        },
                    },
                },
            },
        }
    }
}

/// The well-formed path of a solve: at least 7 joints and 16 pose entries.
#[verifier::rlimit(100)]
#[verifier::spinoff_prover]
fn solve_well_formed(head_joints: &Vec<i64>, head_pose: &Vec<i64>) -> (r: Result<
    Vec<i64>,
    KinError,
>)
    requires
        head_joints@.len() >= 7,
        head_pose@.len() >= 16,
    ensures
        (calculate_passive_joints_s(head_joints@, head_pose@) matches Ok(s) ==> r matches Ok(v)
            && v@ == s),
        (calculate_passive_joints_s(head_joints@, head_pose@) matches Err(e) ==> r == Err::<
            Vec<i64>,
            KinError,
        >(e)),
{
    let raw = Pose {
        rot: M3 {
            m00: head_pose[0],
            m01: head_pose[1],
            m02: head_pose[2],
            m10: head_pose[4],
            m11: head_pose[5],
            m12: head_pose[6],
            m20: head_pose[8],
            m21: head_pose[9],
            m22: head_pose[10],
        },
        trans: V3 { x: head_pose[3], y: head_pose[7], z: head_pose[11] },
    };
    let np = normalize_pose(&raw, head_joints[0]);
    let r0 = solve_leg(head_joints[1], &np, 0);
    let r1 = solve_leg(head_joints[2], &np, 1);
    let r2 = solve_leg(head_joints[3], &np, 2);
    let r3 = solve_leg(head_joints[4], &np, 3);
    let r4 = solve_leg(head_joints[5], &np, 4);
    let r5 = solve_leg(head_joints[6], &np, 5);
    let l0 = match r0 {
        Ok(l) => l,
        Err(e) => {
            return Err(e);
        },
    };
    let l1 = match r1 {
        Ok(l) => l,
        Err(e) => {
            return Err(e);
        },
    };
    let l2 = match r2 {
        Ok(l) => l,
        Err(e) => {
            return Err(e);
        },
    };
    let l3 = match r3 {
        Ok(l) => l,
        Err(e) => {
            return Err(e);
        },
    };
    let l4 = match r4 {
        Ok(l) => l,
        Err(e) => {
            return Err(e);
        },
    };
    let l5 = match r5 {
        Ok(l) => l,
        Err(e) => {
            return Err(e);
        },
    };
    let h = solve_head(&np, &l5);
    let mut v: Vec<i64> = Vec::new();
    v.push(l0.angles.x);
    v.push(l0.angles.y);
    v.push(l0.angles.z);
    v.push(l1.angles.x);
    v.push(l1.angles.y);
    v.push(l1.angles.z);
    v.push(l2.angles.x);
    v.push(l2.angles.y);
    v.push(l2.angles.z);
    v.push(l3.angles.x);
    v.push(l3.angles.y);
    v.push(l3.angles.z);
    v.push(l4.angles.x);
    v.push(l4.angles.y);
    v.push(l4.angles.z);
    v.push(l5.angles.x);
    v.push(l5.angles.y);
    v.push(l5.angles.z);
    v.push(h.x);
    v.push(h.y);
    v.push(h.z);
    proof {
        let s = calculate_passive_joints_s(head_joints@, head_pose@);
        assert(s matches Ok(sv) ==> v@ =~= sv);
    }
    Ok(v)
}

/// Calculate the 21 passive joint angles from the 7 joint values and the 16
/// pose entries (row major). Short inputs return 21 zeros; a degenerate
/// geometry returns an error. The result equals the spec-level solve of the
/// same inputs, so repeated calls with equal inputs return equal outputs.
pub fn calculate_passive_joints(head_joints: &Vec<i64>, head_pose: &Vec<i64>) -> (r: Result<
    Vec<i64>,
    KinError,
>)
    ensures
        (calculate_passive_joints_s(head_joints@, head_pose@) matches Ok(s) ==> r matches Ok(v)
            && v@ == s),
        (calculate_passive_joints_s(head_joints@, head_pose@) matches Err(e) ==> r == Err::<
            Vec<i64>,
            KinError,
        >(e)),
        head_joints@.len() < 7 || head_pose@.len() < 16 ==> (r matches Ok(v) && v@ == Seq::new(
            21,
            |i: int| 0i64,
        )),
{
    if head_joints.len() < 7 || head_pose.len() < 16 {
        let mut v: Vec<i64> = Vec::new();
        let mut k: usize = 0;
        while k < 21
            invariant
                k <= 21,
                v@.len() == k as int,
                forall|j: int| 0 <= j < k as int ==> v@[j] == 0i64,
            decreases 21 - k,
        {
            v.push(0);
            k = k + 1;
        }
        proof {
            assert(v@ =~= Seq::new(21, |i: int| 0i64));
        }
        return Ok(v);
    }
    solve_well_formed(head_joints, head_pose)
}

} // verus!
