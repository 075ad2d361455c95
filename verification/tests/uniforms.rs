use raytracer::bits::{i32_to_f32_bits, ColorBits, Vec3Bits, Vec4Bits, F32_ONE_BITS, F32_ZERO_BITS};
use raytracer::camera::Camera;
use raytracer::light::{Light, LightType, LightUniform};
use raytracer::scene::SceneState;
use raytracer::sphere::{Sphere, SphereUniform};

fn color(r: f32, g: f32, b: f32, a: f32) -> ColorBits {
    ColorBits { r: r.to_bits(), g: g.to_bits(), b: b.to_bits(), a: a.to_bits() }
}

#[test]
fn float_constants_match_the_machine_encoding() {
    assert_eq!(F32_ONE_BITS, 1.0f32.to_bits());
    assert_eq!(F32_ZERO_BITS, 0.0f32.to_bits());
}

#[test]
fn integer_to_float_bits_matches_the_machine_conversion() {
    let samples: [i32; 24] = [
        0,
        1,
        -1,
        2,
        3,
        5,
        7,
        1080,
        5000,
        -5001,
        8_388_607,
        16_777_215,
        16_777_216,
        16_777_217,
        16_777_219,
        33_554_430,
        -33_554_431,
        100_000_000,
        999_999_937,
        -999_999_937,
        2_147_483_646,
        i32::MAX,
        i32::MIN,
        -2_147_483_647,
    ];
    for &v in samples.iter() {
        assert_eq!(i32_to_f32_bits(v), (v as f32).to_bits(), "value {}", v);
    }
}

#[test]
fn integer_to_float_bits_rounds_ties_to_even_exhaustively_near_the_edge() {
    // Every value in a window where rounding starts to matter.
    for v in 16_777_200i32..16_777_300i32 {
        assert_eq!(i32_to_f32_bits(v), (v as f32).to_bits(), "value {}", v);
    }
    for v in -33_554_500i32..-33_554_400i32 {
        assert_eq!(i32_to_f32_bits(v), (v as f32).to_bits(), "value {}", v);
    }
}

#[test]
fn sphere_uniform_is_a_lossless_snapshot() {
    let c = color(1.0, 0.0, 0.0, 0.0);
    let s = Sphere::new((-2.0f32).to_bits(), 0.0f32.to_bits(), 4.0f32.to_bits(), 1, &c);
    assert_eq!(s.center.w, 1.0f32.to_bits());
    let u = s.to_uniform();
    assert_eq!(u.center.x, (-2.0f32).to_bits());
    assert_eq!(u.center.y, 0.0f32.to_bits());
    assert_eq!(u.center.z, 4.0f32.to_bits());
    assert_eq!(u.center.w, 1.0f32.to_bits());
    assert_eq!(u.color.r, 1.0f32.to_bits());
    assert_eq!(u.color.g, 0.0f32.to_bits());
    assert_eq!(u.color.b, 0.0f32.to_bits());
    assert_eq!(u.color.a, (1i32 as f32).to_bits());
}

#[test]
fn packed_radius_is_the_float_bits_of_the_integer_radius() {
    let c = color(1.0, 1.0, 0.0, 0.0);
    let s = Sphere::new(0.0f32.to_bits(), (-5001.0f32).to_bits(), 4.0f32.to_bits(), 5000, &c);
    let packed = s.color_and_pack_radius();
    assert_eq!(packed.r, 1.0f32.to_bits());
    assert_eq!(packed.g, 1.0f32.to_bits());
    assert_eq!(packed.b, 0.0f32.to_bits());
    assert_eq!(packed.a, (5000i32 as f32).to_bits());
    assert_eq!(packed.a, 5000.0f32.to_bits());
}

#[test]
fn ambient_light_has_a_zero_vector() {
    let l = Light::new(LightType::Ambient, 0.2f32.to_bits(), None);
    assert_eq!(
        l.position,
        Vec4Bits { x: F32_ZERO_BITS, y: F32_ZERO_BITS, z: F32_ZERO_BITS, w: F32_ZERO_BITS }
    );
    let u = l.to_uniform();
    assert_eq!(u.light_type, 0);
    assert_eq!(u.intensity, 0.2f32.to_bits());
    assert_eq!(u.padding0, 0);
    assert_eq!(u.padding1, 0);
}

#[test]
fn point_and_directional_lights_keep_their_vectors_and_tags() {
    let point = Light::new(
        LightType::Point,
        0.6f32.to_bits(),
        Some(Vec3Bits { x: 2.0f32.to_bits(), y: 1.0f32.to_bits(), z: 0.0f32.to_bits() }),
    );
    let u = point.to_uniform();
    assert_eq!(u.light_type, 1);
    assert_eq!(u.position.x, 2.0f32.to_bits());
    assert_eq!(u.position.y, 1.0f32.to_bits());
    assert_eq!(u.position.z, 0.0f32.to_bits());
    assert_eq!(u.position.w, 0.0f32.to_bits());

    let directional = Light::new(
        LightType::Directional,
        0.2f32.to_bits(),
        Some(Vec3Bits { x: 1.0f32.to_bits(), y: 4.0f32.to_bits(), z: 4.0f32.to_bits() }),
    );
    let u2 = directional.to_uniform();
    assert_eq!(u2.light_type, 2);
    assert_eq!(u2.position.w, 0.0f32.to_bits());
}

#[test]
fn scene_snapshots_pack_four_spheres_and_three_lights_losslessly() {
    let spheres = vec![
        Sphere::new(
            0.0f32.to_bits(),
            (-1.0f32).to_bits(),
            3.0f32.to_bits(),
            1,
            &color(1.0, 0.0, 0.0, 0.0),
        ),
        Sphere::new(
            2.0f32.to_bits(),
            0.0f32.to_bits(),
            4.0f32.to_bits(),
            1,
            &color(0.0, 0.0, 1.0, 0.0),
        ),
        Sphere::new(
            (-2.0f32).to_bits(),
            0.0f32.to_bits(),
            4.0f32.to_bits(),
            1,
            &color(0.0, 1.0, 0.0, 0.0),
        ),
        Sphere::new(
            0.0f32.to_bits(),
            (-5001.0f32).to_bits(),
            4.0f32.to_bits(),
            5000,
            &color(1.0, 1.0, 0.0, 0.0),
        ),
    ];
    let lights = vec![
        Light::new(LightType::Ambient, 0.2f32.to_bits(), None),
        Light::new(
            LightType::Point,
            0.6f32.to_bits(),
            Some(Vec3Bits { x: 2.0f32.to_bits(), y: 1.0f32.to_bits(), z: 0.0f32.to_bits() }),
        ),
        Light::new(
            LightType::Directional,
            0.2f32.to_bits(),
            Some(Vec3Bits { x: 1.0f32.to_bits(), y: 4.0f32.to_bits(), z: 4.0f32.to_bits() }),
        ),
    ];
    let expected_spheres: Vec<SphereUniform> = spheres.iter().map(|s| s.to_uniform()).collect();
    let expected_lights: Vec<LightUniform> = lights.iter().map(|l| l.to_uniform()).collect();

    let scene = SceneState::new(Camera::from_origin(), spheres, lights);
    let sphere_snap = scene.snapshot_spheres();
    let light_snap = scene.snapshot_lights();
    assert_eq!(sphere_snap.len(), 4);
    assert_eq!(light_snap.len(), 3);
    assert_eq!(sphere_snap, expected_spheres);
    assert_eq!(light_snap, expected_lights);

    // Spot-check a few raw fields against the source values.
    assert_eq!(sphere_snap[1].center.x, 2.0f32.to_bits());
    assert_eq!(sphere_snap[3].color.a, 5000.0f32.to_bits());
    assert_eq!(light_snap[0].light_type, 0);
    assert_eq!(light_snap[1].intensity, 0.6f32.to_bits());
    assert_eq!(light_snap[2].position.y, 4.0f32.to_bits());
}

#[test]
fn camera_snapshot_reads_the_pose_exactly() {
    let scene = SceneState::new(Camera::from_origin(), Vec::new(), Vec::new());
    let pose = scene.snapshot_camera();
    assert_eq!(pose.position.x, 0);
    assert_eq!(pose.position.y, 0);
    assert_eq!(pose.position.z, 0);
    assert_eq!(pose.yaw, -1_570_796);
    assert_eq!(pose.pitch, 0);
}
