//! The mechanism's calibration table.
//!
//! Immutable per-mechanism data: for each of the six actuated legs a branch
//! anchor in the platform frame and a world-from-motor transform; seven
//! Euler-angle corrections, one per passive joint; six rod rest directions in
//! the passive joints' local frames; the head-connector rotation in the head
//! frame; and two scalars (height offset and servo-arm length). All values
//! are Q32 fixed point. The accessors only look the data up; nothing here
//! computes.

use vstd::prelude::*;
use crate::linalg::{M3, V3};

verus! {

/// Height added to the pose translation's Z component, meters.
pub const HEAD_Z_OFFSET: i64 = 760209211;

/// Length of a servo arm, meters.
pub const MOTOR_ARM_LENGTH: i64 = 171798692;

/// Calibration record of one actuated leg: the branch anchor point on the
/// platform (platform-local frame) and the world-from-motor transform.
#[derive(Clone, Copy, Debug, PartialEq, Eq, Structural)]
pub struct Motor {
    pub branch: V3,
    pub rot: M3,
    pub trans: V3,
}

/// Calibration record of leg `i` (meaningful for `0 <= i < 6`).
pub open spec fn motor_s(i: int) -> Motor {
    if i == 0 {
    Motor {
        branch: V3 { x: 88683251i64, y: 93474481i64, z: 444i64 },
        rot: M3 {
            m00: 3719548157i64,
            m01: 19285i64,
            m02: -2147488202i64,
            m10: -2147488202i64,
            m11: 13663i64,
            m12: -3719548157i64,
            m20: -9870i64,
            m21: 4294967296i64,
            m22: 21475i64,
        },
        trans: V3 { x: 115923650i64, y: 114885713i64, z: 329137320i64 },
    }
    } else if i == 1 {
    Motor {
        branch: V3 { x: 36609510i64, y: 123539016i64, z: 508i64 },
        rot: M3 {
            m00: -3719532381i64,
            m01: -19285i64,
            m02: -2147515527i64,
            m10: 2147515527i64,
            m11: -13663i64,
            m12: -3719532381i64,
            m20: 9870i64,
            m21: -4294967296i64,
            m22: 21475i64,
        },
        trans: V3 { x: 41532206i64, y: 157835769i64, z: 329137518i64 },
    }
    } else if i == 2 {
    Motor {
        branch: V3 { x: -125292835i64, y: 30064526i64, z: 173i64 },
        rot: M3 {
            m00: 27173i64,
            m01: -4379i64,
            m02: 4294967296i64,
            m10: 4294967296i64,
            m11: 0i64,
            m12: -27173i64,
            m20: 0i64,
            m21: 4294967296i64,
            m22: 4379i64,
        },
        trans: V3 { x: -157456500i64, y: 42950172i64, z: 329138046i64 },
    }
    } else if i == 3 {
    Motor {
        branch: V3 { x: -125292959i64, y: -30064754i64, z: -136i64 },
        rot: M3 {
            m00: -15776i64,
            m01: 4379i64,
            m02: 4294967296i64,
            m10: -4294967296i64,
            m11: 0i64,
            m12: -15776i64,
            m20: 0i64,
            m21: -4294967296i64,
            m22: 4379i64,
        },
        trans: V3 { x: -157456816i64, y: -42949095i64, z: 329138046i64 },
    }
    } else if i == 4 {
    Motor {
        branch: V3 { x: 36609481i64, y: -123539207i64, z: -616i64 },
        rot: M3 {
            m00: -3719563934i64,
            m01: 19285i64,
            m02: -2147460877i64,
            m10: -2147460877i64,
            m11: -13663i64,
            m12: 3719563934i64,
            m20: 9870i64,
            m21: 4294967296i64,
            m22: 21475i64,
        },
        trans: V3 { x: 41531238i64, y: -157835964i64, z: 329137518i64 },
    }
    } else {
    Motor {
        branch: V3 { x: 88683287i64, y: -93474363i64, z: -385i64 },
        rot: M3 {
            m00: 3719548157i64,
            m01: -19285i64,
            m02: -2147488202i64,
            m10: 2147488202i64,
            m11: 13663i64,
            m12: 3719548157i64,
            m20: -9870i64,
            m21: -4294967296i64,
            m22: 21475i64,
        },
        trans: V3 { x: 115922615i64, y: -114886675i64, z: 329137320i64 },
    }
    }
}

pub fn motor(i: usize) -> (r: Motor)
    requires
        i < 6,
    ensures
        r == motor_s(i as int),
{
    if i == 0 {
    Motor {
        branch: V3 { x: 88683251i64, y: 93474481i64, z: 444i64 },
        rot: M3 {
            m00: 3719548157i64,
            m01: 19285i64,
            m02: -2147488202i64,
            m10: -2147488202i64,
            m11: 13663i64,
            m12: -3719548157i64,
            m20: -9870i64,
            m21: 4294967296i64,
            m22: 21475i64,
        },
        trans: V3 { x: 115923650i64, y: 114885713i64, z: 329137320i64 },
    }
    } else if i == 1 {
    Motor {
        branch: V3 { x: 36609510i64, y: 123539016i64, z: 508i64 },
        rot: M3 {
            m00: -3719532381i64,
            m01: -19285i64,
            m02: -2147515527i64,
            m10: 2147515527i64,
            m11: -13663i64,
            m12: -3719532381i64,
            m20: 9870i64,
            m21: -4294967296i64,
            m22: 21475i64,
        },
        trans: V3 { x: 41532206i64, y: 157835769i64, z: 329137518i64 },
    }
    } else if i == 2 {
    Motor {
        branch: V3 { x: -125292835i64, y: 30064526i64, z: 173i64 },
        rot: M3 {
            m00: 27173i64,
            m01: -4379i64,
            m02: 4294967296i64,
            m10: 4294967296i64,
            m11: 0i64,
            m12: -27173i64,
            m20: 0i64,
            m21: 4294967296i64,
            m22: 4379i64,
        },
        trans: V3 { x: -157456500i64, y: 42950172i64, z: 329138046i64 },
    }
    } else if i == 3 {
    Motor {
        branch: V3 { x: -125292959i64, y: -30064754i64, z: -136i64 },
        rot: M3 {
            m00: -15776i64,
            m01: 4379i64,
            m02: 4294967296i64,
            m10: -4294967296i64,
            m11: 0i64,
            m12: -15776i64,
            m20: 0i64,
            m21: -4294967296i64,
            m22: 4379i64,
        },
        trans: V3 { x: -157456816i64, y: -42949095i64, z: 329138046i64 },
    }
    } else if i == 4 {
    Motor {
        branch: V3 { x: 36609481i64, y: -123539207i64, z: -616i64 },
        rot: M3 {
            m00: -3719563934i64,
            m01: 19285i64,
            m02: -2147460877i64,
            m10: -2147460877i64,
            m11: -13663i64,
            m12: 3719563934i64,
            m20: 9870i64,
            m21: 4294967296i64,
            m22: 21475i64,
        },
        trans: V3 { x: 41531238i64, y: -157835964i64, z: 329137518i64 },
    }
    } else {
    Motor {
        branch: V3 { x: 88683287i64, y: -93474363i64, z: -385i64 },
        rot: M3 {
            m00: 3719548157i64,
            m01: -19285i64,
            m02: -2147488202i64,
            m10: 2147488202i64,
            m11: 13663i64,
            m12: 3719548157i64,
            m20: -9870i64,
            m21: -4294967296i64,
            m22: 21475i64,
        },
        trans: V3 { x: 115922615i64, y: -114886675i64, z: 329137320i64 },
    }
    }
}

/// Euler-angle correction of passive joint `i` (meaningful for `0 <= i < 7`).
pub open spec fn joint_correction_s(i: int) -> V3 {
    if i == 0 {
        V3 { x: -590729802i64, y: -378883117i64, z: 9034420757i64 }
    } else if i == 1 {
        V3 { x: -13493037705i64, y: 0i64, z: -13493037705i64 }
    } else if i == 2 {
        V3 { x: 1604466638i64, y: 378883117i64, z: -4458605550i64 }
    } else if i == 3 {
        V3 { x: -369730542i64, y: 378883117i64, z: 4458605550i64 }
    } else if i == 4 {
        V3 { x: 532477160i64, y: 378883117i64, z: -4458605550i64 }
    } else if i == 5 {
        V3 { x: 13148183383i64, y: 378883117i64, z: 4458605550i64 }
    } else {
        V3 { x: 13493037705i64, y: 0i64, z: 0i64 }
    }
}

pub fn joint_correction(i: usize) -> (r: V3)
    requires
        i < 7,
    ensures
        r == joint_correction_s(i as int),
{
    if i == 0 {
        V3 { x: -590729802i64, y: -378883117i64, z: 9034420757i64 }
    } else if i == 1 {
        V3 { x: -13493037705i64, y: 0i64, z: -13493037705i64 }
    } else if i == 2 {
        V3 { x: 1604466638i64, y: 378883117i64, z: -4458605550i64 }
    } else if i == 3 {
        V3 { x: -369730542i64, y: 378883117i64, z: 4458605550i64 }
    } else if i == 4 {
        V3 { x: 532477160i64, y: 378883117i64, z: -4458605550i64 }
    } else if i == 5 {
        V3 { x: 13148183383i64, y: 378883117i64, z: 4458605550i64 }
    } else {
        V3 { x: 13493037705i64, y: 0i64, z: 0i64 }
    }
}

/// Rod rest direction of leg `i` in its passive joint's local frame
/// (meaningful for `0 <= i < 6`).
pub open spec fn rod_rest_dir_s(i: int) -> V3 {
    if i == 0 {
        V3 { x: 4294967296i64, y: 0i64, z: 0i64 }
    } else if i == 1 {
        V3 { x: 2173551565i64, y: -3684928094i64, z: -379107830i64 }
    } else if i == 2 {
        V3 { x: -4294967296i64, y: 0i64, z: 0i64 }
    } else if i == 3 {
        V3 { x: -4294967296i64, y: 0i64, z: 0i64 }
    } else if i == 4 {
        V3 { x: -4294967296i64, y: 0i64, z: 0i64 }
    } else {
        V3 { x: -4294967296i64, y: 0i64, z: 0i64 }
    }
}

pub fn rod_rest_dir(i: usize) -> (r: V3)
    requires
        i < 6,
    ensures
        r == rod_rest_dir_s(i as int),
{
    if i == 0 {
        V3 { x: 4294967296i64, y: 0i64, z: 0i64 }
    } else if i == 1 {
        V3 { x: 2173551565i64, y: -3684928094i64, z: -379107830i64 }
    } else if i == 2 {
        V3 { x: -4294967296i64, y: 0i64, z: 0i64 }
    } else if i == 3 {
        V3 { x: -4294967296i64, y: 0i64, z: 0i64 }
    } else if i == 4 {
        V3 { x: -4294967296i64, y: 0i64, z: 0i64 }
    } else {
        V3 { x: -4294967296i64, y: 0i64, z: 0i64 }
    }
}

/// Rotation block of the head-connector transform, head frame.
pub open spec fn head_connector_rot_s() -> M3 {
    M3 {
        m00: 2071033230i64,
        m01: -3035682885i64,
        m02: -2223504569i64,
        m10: 758491224i64,
        m11: -2148772138i64,
        m12: 3640414280i64,
        m20: -3685511437i64,
        m21: -2147913145i64,
        m22: -499934193i64,
    }
}

pub fn head_connector_rot() -> (r: M3)
    ensures
        r == head_connector_rot_s(),
{
    M3 {
        m00: 2071033230i64,
        m01: -3035682885i64,
        m02: -2223504569i64,
        m10: 758491224i64,
        m11: -2148772138i64,
        m12: 3640414280i64,
        m20: -3685511437i64,
        m21: -2147913145i64,
        m22: -499934193i64,
    }
}

} // verus!
