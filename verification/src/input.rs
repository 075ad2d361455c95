//! Input mapping: raw key and mouse samples plus elapsed time become one
//! camera delta per loop iteration. The windowing layer supplies the key
//! states, the cursor offset from the warp center, and the camera's facing
//! vectors; everything here is exact fixed-point arithmetic.

use vstd::prelude::*;
use crate::camera::{CameraDelta, Vec3Micro};
use crate::numeric::{
    lemma_scale_micro_bound,
    sat_add_i64,
    scale_micro,
    spec_sat_add,
    spec_scale_micro,
};

verus! {

/// Largest movement speed accepted, in micro-units per second.
pub const SPEED_BOUND_MICRO: i64 = 1_000_000_000;

/// Largest frame time accepted, in microseconds.
pub const DT_BOUND_MICRO: i64 = 1_000_000_000;

/// Largest look sensitivity accepted, in micro-units.
pub const SENSITIVITY_BOUND_MICRO: i64 = 100_000_000;

/// Largest cursor offset accepted, in micro-pixels.
pub const CURSOR_BOUND_MICRO: i64 = 10_000_000_000;

/// Largest facing-vector component accepted, in micro-units.
pub const AXIS_BOUND_MICRO: i64 = 1_000_000_000;

/// The raw key states one loop iteration samples.
#[derive(Clone, Copy, Debug, PartialEq, Eq, Structural)]
pub struct KeySample {
    pub key_w: bool,
    pub key_s: bool,
    pub key_a: bool,
    pub key_d: bool,
    pub key_space: bool,
    pub key_shift: bool,
    pub key_escape: bool,
}

/// Net steps along the facing vector: forward key minus back key.
pub open spec fn spec_forward_steps(k: KeySample) -> int {
    (if k.key_w {
        1int
    } else {
        0int
    }) - (if k.key_s {
        1int
    } else {
        0int
    })
}

/// Net steps along the side vector.
pub open spec fn spec_side_steps(k: KeySample) -> int {
    (if k.key_a {
        1int
    } else {
        0int
    }) - (if k.key_d {
        1int
    } else {
        0int
    })
}

/// Net vertical steps: rise key minus fall key.
pub open spec fn spec_rise_steps(k: KeySample) -> int {
    (if k.key_space {
        1int
    } else {
        0int
    }) - (if k.key_shift {
        1int
    } else {
        0int
    })
}

/// Net movement intent along each axis, each component in -1, 0 or 1.
#[derive(Clone, Copy, Debug, PartialEq, Eq, Structural)]
pub struct MoveIntent {
    pub forward_steps: i64,
    pub side_steps: i64,
    pub rise_steps: i64,
}

/// Fold the pressed movement keys into net step counts per axis;
/// opposing keys cancel.
pub fn move_intent(keys: &KeySample) -> (m: MoveIntent)
    ensures
        m.forward_steps == spec_forward_steps(*keys),
        m.side_steps == spec_side_steps(*keys),
        m.rise_steps == spec_rise_steps(*keys),
        -1 <= m.forward_steps <= 1,
        -1 <= m.side_steps <= 1,
        -1 <= m.rise_steps <= 1,
{
    let forward_steps: i64 = (if keys.key_w {
        1i64
    } else {
        0i64
    }) - (if keys.key_s {
        1i64
    } else {
        0i64
    });
    let side_steps: i64 = (if keys.key_a {
        1i64
    } else {
        0i64
    }) - (if keys.key_d {
        1i64
    } else {
        0i64
    });
    let rise_steps: i64 = (if keys.key_space {
        1i64
    } else {
        0i64
    }) - (if keys.key_shift {
        1i64
    } else {
        0i64
    });
    MoveIntent { forward_steps, side_steps, rise_steps }
}

/// Whether the sampled keys ask the application to quit.
pub fn wants_exit(keys: &KeySample) -> (r: bool)
    ensures
        r == keys.key_escape,
{
    keys.key_escape
}

/// `v` times a step count of minus one, zero or one.
fn step_times(v: i64, steps: i64) -> (r: i64)
    requires
        -1 <= steps <= 1,
        v > i64::MIN,
    ensures
        r == v * steps,
{
    if steps == 1 {
        assert(v as int * steps as int == v as int) by (nonlinear_arith)
            requires
                steps == 1,
        ;
        v
    } else if steps == -1 {
        assert(v as int * steps as int == -(v as int)) by (nonlinear_arith)
            requires
                steps == -1,
        ;
        -v
    } else {
        assert(v as int * steps as int == 0) by (nonlinear_arith)
            requires
                steps == 0,
        ;
        0
    }
}

/// One axis of the movement vector: the facing and side components, each
/// scaled by the per-frame distance and weighted by its step count, summed
/// with saturation.
pub open spec fn spec_movement_axis(axis_f: int, axis_s: int, fs: int, ss: int, step: int) -> int {
    spec_sat_add(spec_scale_micro(axis_f, step) * fs, spec_scale_micro(axis_s, step) * ss)
}

/// The exact camera delta one input sample produces: each movement axis
/// combines the facing and side vectors scaled by `speed * dt`, the
/// vertical axis adds the rise steps at full per-frame distance, and the
/// look deltas scale the cursor offset by `sensitivity * dt`, the vertical
/// one negated so that an upward mouse motion pitches upward.
pub open spec fn spec_build_delta(
    keys: KeySample,
    forward: Vec3Micro,
    side: Vec3Micro,
    speed: int,
    sensitivity: int,
    dt_micro: int,
    cursor_dx_micro: int,
    cursor_dy_micro: int,
) -> CameraDelta {
    let step = spec_scale_micro(speed, dt_micro);
    let fs = spec_forward_steps(keys);
    let ss = spec_side_steps(keys);
    let rs = spec_rise_steps(keys);
    CameraDelta {
        movement: Vec3Micro {
            x: spec_movement_axis(forward.x as int, side.x as int, fs, ss, step) as i64,
            y: spec_sat_add(
                spec_movement_axis(forward.y as int, side.y as int, fs, ss, step),
                step * rs,
            ) as i64,
            z: spec_movement_axis(forward.z as int, side.z as int, fs, ss, step) as i64,
        },
        yaw_delta: spec_scale_micro(spec_scale_micro(cursor_dx_micro, sensitivity), dt_micro) as i64,
        pitch_delta: spec_scale_micro(
            spec_scale_micro(-cursor_dy_micro, sensitivity),
            dt_micro,
        ) as i64,
    }
}

/// Map one raw input sample into the camera delta for this frame. The
/// bounds are what the 64-bit fixed-point intermediates force. `forward`
/// and `side` are the camera's current facing and side vectors; the
/// cursor offset is measured from the warp center the windowing layer
/// resets the pointer to after each sample.
pub fn build_camera_delta(
    keys: &KeySample,
    forward: Vec3Micro,
    side: Vec3Micro,
    speed: i64,
    sensitivity: i64,
    dt_micro: i64,
    cursor_dx_micro: i64,
    cursor_dy_micro: i64,
) -> (d: CameraDelta)
    requires
        0 <= speed <= SPEED_BOUND_MICRO,
        0 <= dt_micro <= DT_BOUND_MICRO,
        0 <= sensitivity <= SENSITIVITY_BOUND_MICRO,
        -CURSOR_BOUND_MICRO <= cursor_dx_micro <= CURSOR_BOUND_MICRO,
        -CURSOR_BOUND_MICRO <= cursor_dy_micro <= CURSOR_BOUND_MICRO,
        -AXIS_BOUND_MICRO <= forward.x <= AXIS_BOUND_MICRO,
        -AXIS_BOUND_MICRO <= forward.y <= AXIS_BOUND_MICRO,
        -AXIS_BOUND_MICRO <= forward.z <= AXIS_BOUND_MICRO,
        -AXIS_BOUND_MICRO <= side.x <= AXIS_BOUND_MICRO,
        -AXIS_BOUND_MICRO <= side.y <= AXIS_BOUND_MICRO,
        -AXIS_BOUND_MICRO <= side.z <= AXIS_BOUND_MICRO,
    ensures
        d == spec_build_delta(
            *keys,
            forward,
            side,
            speed as int,
            sensitivity as int,
            dt_micro as int,
            cursor_dx_micro as int,
            cursor_dy_micro as int,
        ),
{
    proof {
        lemma_scale_micro_bound(
            speed as int,
            dt_micro as int,
            SPEED_BOUND_MICRO as int,
            DT_BOUND_MICRO as int,
        );
    }
    let step: i64 = scale_micro(speed, dt_micro);
    let intent = move_intent(keys);
    proof {
        lemma_scale_micro_bound(forward.x as int, step as int, AXIS_BOUND_MICRO as int, 1_000_000_000_000int);
        lemma_scale_micro_bound(forward.y as int, step as int, AXIS_BOUND_MICRO as int, 1_000_000_000_000int);
        lemma_scale_micro_bound(forward.z as int, step as int, AXIS_BOUND_MICRO as int, 1_000_000_000_000int);
        lemma_scale_micro_bound(side.x as int, step as int, AXIS_BOUND_MICRO as int, 1_000_000_000_000int);
        lemma_scale_micro_bound(side.y as int, step as int, AXIS_BOUND_MICRO as int, 1_000_000_000_000int);
        lemma_scale_micro_bound(side.z as int, step as int, AXIS_BOUND_MICRO as int, 1_000_000_000_000int);
    }
    let move_x: i64 = sat_add_i64(
        step_times(scale_micro(forward.x, step), intent.forward_steps),
        step_times(scale_micro(side.x, step), intent.side_steps),
    );
    let move_y_planar: i64 = sat_add_i64(
        step_times(scale_micro(forward.y, step), intent.forward_steps),
        step_times(scale_micro(side.y, step), intent.side_steps),
    );
    let move_y: i64 = sat_add_i64(move_y_planar, step_times(step, intent.rise_steps));
    let move_z: i64 = sat_add_i64(
        step_times(scale_micro(forward.z, step), intent.forward_steps),
        step_times(scale_micro(side.z, step), intent.side_steps),
    );
    proof {
        lemma_scale_micro_bound(
            cursor_dx_micro as int,
            sensitivity as int,
            CURSOR_BOUND_MICRO as int,
            SENSITIVITY_BOUND_MICRO as int,
        );
        lemma_scale_micro_bound(
            -cursor_dy_micro as int,
            sensitivity as int,
            CURSOR_BOUND_MICRO as int,
            SENSITIVITY_BOUND_MICRO as int,
        );
    }
    let yaw_delta: i64 = scale_micro(scale_micro(cursor_dx_micro, sensitivity), dt_micro);
    let pitch_delta: i64 = scale_micro(scale_micro(-cursor_dy_micro, sensitivity), dt_micro);
    CameraDelta {
        movement: Vec3Micro { x: move_x, y: move_y, z: move_z },
        yaw_delta,
        pitch_delta,
    }
}

} // verus!
