//! Camera pose: position, yaw and pitch in fixed-point micro-units. The
//! pitch is re-clamped to a quarter turn on every update, so no sequence of
//! look deltas can flip the camera over its vertical axis.

use vstd::prelude::*;
use crate::numeric::{clamp_i64, sat_add_i64, spec_clamp, spec_sat_add};

verus! {

/// Pitch saturates at plus or minus this angle: a quarter turn, in
/// microradians (the fixed-point value of pi over two).
pub const PITCH_LIMIT_MICRO: i64 = 1_570_796;

/// The starting yaw: minus a quarter turn (minus ninety degrees), in
/// microradians, so the camera initially looks down the negative z axis.
pub const INITIAL_YAW_MICRO: i64 = -1_570_796;

/// The starting movement speed: one and a half units per second, in
/// micro-units.
pub const INITIAL_SPEED_MICRO: i64 = 1_500_000;

/// The starting look sensitivity: one half, in micro-units.
pub const INITIAL_SENSITIVITY_MICRO: i64 = 500_000;

/// A three-component vector in micro-units.
#[derive(Clone, Copy, Debug, PartialEq, Eq, Structural)]
pub struct Vec3Micro {
    pub x: i64,
    pub y: i64,
    pub z: i64,
}

impl Vec3Micro {
    /// The zero vector.
    pub fn zero() -> (v: Vec3Micro)
        ensures
            v.x == 0 && v.y == 0 && v.z == 0,
    {
        Vec3Micro { x: 0, y: 0, z: 0 }
    }
}

/// One frame's worth of camera mutation: a world-space movement vector and
/// a yaw/pitch look delta, all in micro-units.
#[derive(Clone, Copy, Debug, PartialEq, Eq, Structural)]
pub struct CameraDelta {
    /// World-space translation to add to the position.
    pub movement: Vec3Micro,
    /// Horizontal look delta, in microradians; unclamped, it wraps through
    /// the periodic functions downstream.
    pub yaw_delta: i64,
    /// Vertical look delta, in microradians; the resulting pitch is clamped.
    pub pitch_delta: i64,
}

/// A read-only snapshot of the camera pose, handed to the uniform stage;
/// the orientation matrix the kernel consumes is derived from it at the
/// GPU boundary.
#[derive(Clone, Copy, Debug, PartialEq, Eq, Structural)]
pub struct CameraPose {
    /// Eye position, in micro-units.
    pub position: Vec3Micro,
    /// Horizontal angle, in microradians.
    pub yaw: i64,
    /// Vertical angle, in microradians.
    pub pitch: i64,
}

/// The camera pose and its input scaling parameters, in micro-units.
#[derive(Clone, Copy, Debug, PartialEq, Eq, Structural)]
pub struct Camera {
    /// Eye position.
    pub position: Vec3Micro,
    /// Horizontal angle, in microradians.
    pub yaw: i64,
    /// Vertical angle, in microradians; kept within the quarter-turn limit.
    pub pitch: i64,
    /// Movement speed, in micro-units per second.
    pub speed: i64,
    /// Look sensitivity, in micro-units.
    pub sensitivity: i64,
}

impl Camera {
    /// The pitch stays within the quarter-turn limit.
    pub open spec fn pitch_clamped(self) -> bool {
        -PITCH_LIMIT_MICRO <= self.pitch <= PITCH_LIMIT_MICRO
    }

    /// What one atomic camera update does: the movement vector is added to
    /// the position and the look delta to the angles, each component
    /// saturating at the fixed-point range, and the pitch is re-clamped to
    /// the quarter-turn limit.
    pub open spec fn spec_apply_delta(self, delta: CameraDelta) -> Camera {
        Camera {
            position: Vec3Micro {
                x: spec_sat_add(self.position.x as int, delta.movement.x as int) as i64,
                y: spec_sat_add(self.position.y as int, delta.movement.y as int) as i64,
                z: spec_sat_add(self.position.z as int, delta.movement.z as int) as i64,
            },
            yaw: spec_sat_add(self.yaw as int, delta.yaw_delta as int) as i64,
            pitch: spec_clamp(
                spec_sat_add(self.pitch as int, delta.pitch_delta as int),
                -PITCH_LIMIT_MICRO as int,
                PITCH_LIMIT_MICRO as int,
            ) as i64,
            speed: self.speed,
            sensitivity: self.sensitivity,
        }
    }

    /// The camera a session starts with: at the origin, looking down the
    /// negative z axis (yaw minus a quarter turn, pitch level), with the
    /// default speed and sensitivity.
    pub fn from_origin() -> (c: Camera)
        ensures
            c.position.x == 0 && c.position.y == 0 && c.position.z == 0,
            c.yaw == INITIAL_YAW_MICRO,
            c.pitch == 0,
            c.speed == INITIAL_SPEED_MICRO,
            c.sensitivity == INITIAL_SENSITIVITY_MICRO,
            c.pitch_clamped(),
    {
        Camera {
            position: Vec3Micro::zero(),
            yaw: INITIAL_YAW_MICRO,
            pitch: 0,
            speed: INITIAL_SPEED_MICRO,
            sensitivity: INITIAL_SENSITIVITY_MICRO,
        }
    }

    /// Apply one frame's movement and look delta atomically: position, yaw
    /// and pitch change together, and the pitch is re-clamped. Total: any
    /// delta is accepted, and the pitch invariant holds afterwards
    /// unconditionally.
    pub fn apply_camera_delta(&mut self, delta: &CameraDelta)
        ensures
            *final(self) == old(self).spec_apply_delta(*delta),
            final(self).pitch_clamped(),
    {
        self.position.x = sat_add_i64(self.position.x, delta.movement.x);
        self.position.y = sat_add_i64(self.position.y, delta.movement.y);
        self.position.z = sat_add_i64(self.position.z, delta.movement.z);
        self.yaw = sat_add_i64(self.yaw, delta.yaw_delta);
        let raw_pitch: i64 = sat_add_i64(self.pitch, delta.pitch_delta);
        self.pitch = clamp_i64(raw_pitch, -PITCH_LIMIT_MICRO, PITCH_LIMIT_MICRO);
    }
}

/// The camera after a whole sequence of updates, first element first.
pub open spec fn spec_apply_all(c: Camera, deltas: Seq<CameraDelta>) -> Camera
    decreases deltas.len(),
{
    if deltas.len() == 0 {
        c
    } else {
        spec_apply_all(c.spec_apply_delta(deltas[0]), deltas.drop_first())
    }
}

/// Law: after any non-empty sequence of camera updates, from any starting
/// pose, the pitch lies within the quarter-turn limit. Every intermediate
/// pose is the result of a non-empty prefix, so the invariant holds after
/// every single update as well.
pub proof fn lemma_pitch_clamped_after_any_deltas(c: Camera, deltas: Seq<CameraDelta>)
    requires
        deltas.len() >= 1,
    ensures
        spec_apply_all(c, deltas).pitch_clamped(),
    decreases deltas.len(),
{
    let c1 = c.spec_apply_delta(deltas[0]);
    if deltas.len() == 1 {
        assert(spec_apply_all(c1, deltas.drop_first()) == c1);
    } else {
        lemma_pitch_clamped_after_any_deltas(c1, deltas.drop_first());
    }
}

} // verus!
