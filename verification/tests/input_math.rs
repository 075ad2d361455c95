use raytracer::camera::{Camera, CameraDelta, Vec3Micro, PITCH_LIMIT_MICRO};
use raytracer::dispatch::{cursor_center, dispatch_grid, IMAGE_HEIGHT, IMAGE_WIDTH};
use raytracer::input::{build_camera_delta, move_intent, wants_exit, KeySample};
use raytracer::numeric::{clamp_i64, sat_add_i64, scale_micro};
use raytracer::scene::SceneState;

fn keys_none() -> KeySample {
    KeySample {
        key_w: false,
        key_s: false,
        key_a: false,
        key_d: false,
        key_space: false,
        key_shift: false,
        key_escape: false,
    }
}

#[test]
fn camera_starts_at_the_origin_looking_down_negative_z() {
    let c = Camera::from_origin();
    assert_eq!(c.position, Vec3Micro { x: 0, y: 0, z: 0 });
    assert_eq!(c.yaw, -1_570_796);
    assert_eq!(c.pitch, 0);
    assert_eq!(c.speed, 1_500_000);
    assert_eq!(c.sensitivity, 500_000);
}

#[test]
fn pitch_stays_clamped_after_every_update() {
    let mut c = Camera::from_origin();
    let deltas: [i64; 12] = [
        99_000_000,
        -1,
        -250_000_000,
        3,
        1_570_796,
        1,
        i64::MAX,
        -3_141_592,
        0,
        i64::MIN,
        7,
        2_000_000,
    ];
    for &pd in deltas.iter() {
        let d = CameraDelta {
            movement: Vec3Micro { x: 0, y: 0, z: 0 },
            yaw_delta: pd / 2,
            pitch_delta: pd,
        };
        c.apply_camera_delta(&d);
        assert!(-PITCH_LIMIT_MICRO <= c.pitch && c.pitch <= PITCH_LIMIT_MICRO);
    }
}

#[test]
fn pitch_saturates_exactly_at_the_quarter_turn() {
    let mut c = Camera::from_origin();
    let up = CameraDelta {
        movement: Vec3Micro { x: 0, y: 0, z: 0 },
        yaw_delta: 0,
        pitch_delta: 99_000_000,
    };
    c.apply_camera_delta(&up);
    assert_eq!(c.pitch, PITCH_LIMIT_MICRO);
    let nudge = CameraDelta {
        movement: Vec3Micro { x: 0, y: 0, z: 0 },
        yaw_delta: 0,
        pitch_delta: -1,
    };
    c.apply_camera_delta(&nudge);
    assert_eq!(c.pitch, PITCH_LIMIT_MICRO - 1);
    let down = CameraDelta {
        movement: Vec3Micro { x: 0, y: 0, z: 0 },
        yaw_delta: 0,
        pitch_delta: i64::MIN,
    };
    c.apply_camera_delta(&down);
    assert_eq!(c.pitch, -PITCH_LIMIT_MICRO);
}

#[test]
fn camera_delta_updates_position_and_yaw_exactly() {
    let mut scene = SceneState::new(Camera::from_origin(), Vec::new(), Vec::new());
    let d = CameraDelta {
        movement: Vec3Micro { x: 5, y: -7, z: 9 },
        yaw_delta: 1_000_000,
        pitch_delta: 0,
    };
    scene.apply_camera_delta(&d);
    assert_eq!(scene.camera.position, Vec3Micro { x: 5, y: -7, z: 9 });
    assert_eq!(scene.camera.yaw, -570_796);
}

#[test]
fn saturating_arithmetic_saturates_only_at_the_limits() {
    assert_eq!(sat_add_i64(1, 2), 3);
    assert_eq!(sat_add_i64(i64::MAX, 1), i64::MAX);
    assert_eq!(sat_add_i64(i64::MIN, -1), i64::MIN);
    assert_eq!(sat_add_i64(i64::MAX, i64::MIN), -1);
    assert_eq!(clamp_i64(5, -2, 2), 2);
    assert_eq!(clamp_i64(-5, -2, 2), -2);
    assert_eq!(clamp_i64(1, -2, 2), 1);
}

#[test]
fn micro_scaling_truncates_toward_zero() {
    assert_eq!(scale_micro(1_500_000, 16_667), 25_000);
    assert_eq!(scale_micro(-1_500_000, 16_667), -25_000);
    assert_eq!(scale_micro(1, 999_999), 0);
    assert_eq!(scale_micro(-1, 999_999), 0);
    assert_eq!(scale_micro(2_000_000, 500_000), 1_000_000);
}

#[test]
fn opposing_keys_cancel_in_the_move_intent() {
    let mut keys = keys_none();
    keys.key_w = true;
    keys.key_s = true;
    keys.key_a = true;
    keys.key_space = true;
    let m = move_intent(&keys);
    assert_eq!(m.forward_steps, 0);
    assert_eq!(m.side_steps, 1);
    assert_eq!(m.rise_steps, 1);
    assert!(!wants_exit(&keys));
    keys.key_escape = true;
    assert!(wants_exit(&keys));
}

#[test]
fn one_frame_of_forward_motion_moves_along_the_facing_vector() {
    let mut keys = keys_none();
    keys.key_w = true;
    let forward = Vec3Micro { x: 0, y: 0, z: -1_000_000 };
    let side = Vec3Micro { x: 1_000_000, y: 0, z: 0 };
    let d = build_camera_delta(&keys, forward, side, 1_500_000, 500_000, 16_667, 0, 0);
    // step = 1.5 * 0.016667 s = 25_000 micro-units this frame.
    assert_eq!(d.movement, Vec3Micro { x: 0, y: 0, z: -25_000 });
    assert_eq!(d.yaw_delta, 0);
    assert_eq!(d.pitch_delta, 0);
}

#[test]
fn vertical_keys_move_at_full_frame_distance() {
    let mut keys = keys_none();
    keys.key_shift = true;
    let forward = Vec3Micro { x: 0, y: 0, z: -1_000_000 };
    let side = Vec3Micro { x: 1_000_000, y: 0, z: 0 };
    let d = build_camera_delta(&keys, forward, side, 1_500_000, 500_000, 16_667, 0, 0);
    assert_eq!(d.movement, Vec3Micro { x: 0, y: -25_000, z: 0 });
}

#[test]
fn cursor_offsets_become_scaled_look_deltas() {
    let keys = keys_none();
    let forward = Vec3Micro { x: 0, y: 0, z: -1_000_000 };
    let side = Vec3Micro { x: 1_000_000, y: 0, z: 0 };
    // Two pixels right, two pixels down, in micro-pixels.
    let d = build_camera_delta(
        &keys, forward, side, 1_500_000, 500_000, 16_667, 2_000_000, 2_000_000,
    );
    assert_eq!(d.movement, Vec3Micro { x: 0, y: 0, z: 0 });
    assert_eq!(d.yaw_delta, 16_667);
    assert_eq!(d.pitch_delta, -16_667);
}

#[test]
fn dispatch_grid_covers_the_image_exactly() {
    let g = dispatch_grid(IMAGE_WIDTH, IMAGE_HEIGHT);
    assert_eq!((g.x, g.y, g.z), (135, 135, 1));
    let g2 = dispatch_grid(800, 600);
    assert_eq!((g2.x, g2.y, g2.z), (100, 75, 1));
}

#[test]
fn cursor_warp_center_is_the_image_center() {
    assert_eq!(cursor_center(IMAGE_WIDTH, IMAGE_HEIGHT), (540, 540));
    assert_eq!(cursor_center(801, 601), (400, 300));
}
