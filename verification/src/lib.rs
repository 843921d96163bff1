//! Passive-joint solver for a Stewart-platform head mount, together with the
//! small pure helpers of the surrounding desktop controller.
//!
//! The mechanism has six actuated legs and one head connector; each passive
//! ball joint is described by three Euler angles. Given the seven actuator
//! angles and the commanded platform pose, the solver derives the twenty-one
//! passive angles that keep the rigid platform consistent with the commanded
//! geometry.
//!
//! All scalars are fixed-point numbers: an `i64` holds the value times 2^32
//! (see [`fixed`]). Angle inputs and outputs are radians in that encoding,
//! translations are meters. Arithmetic saturates at the `i64` range instead
//! of wrapping, and every executable function is specified exactly against a
//! spec-level mirror of the same computation, so a call is a pure function of
//! its inputs.

pub mod fixed;
pub mod trig;
pub mod linalg;
pub mod rotation;
pub mod geometry;
pub mod solver;
pub mod strutil;
pub mod launcher;
pub mod python;
pub mod wifi;
pub mod update;
pub mod usb;
