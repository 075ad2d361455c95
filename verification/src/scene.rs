//! The mutable simulation state: the camera pose plus the immutable sphere
//! and light lists, with pure snapshot functions that produce the exact
//! GPU-layout copies the uniform stage publishes each frame.

use vstd::prelude::*;
use crate::camera::{Camera, CameraDelta, CameraPose};
use crate::light::{Light, LightUniform};
use crate::sphere::{Sphere, SphereUniform};

verus! {

/// The scene: one camera, mutated between frames by the input controller,
/// and the sphere and light lists, set once at construction.
pub struct SceneState {
    pub camera: Camera,
    pub spheres: Vec<Sphere>,
    pub lights: Vec<Light>,
}

impl SceneState {
    /// A scene over the given camera and object lists.
    pub fn new(camera: Camera, spheres: Vec<Sphere>, lights: Vec<Light>) -> (s: SceneState)
        ensures
            s.camera == camera,
            s.spheres == spheres,
            s.lights == lights,
    {
        SceneState { camera, spheres, lights }
    }

    /// A pure snapshot of the camera pose; no side effects.
    pub fn snapshot_camera(&self) -> (p: CameraPose)
        ensures
            p.position == self.camera.position,
            p.yaw == self.camera.yaw,
            p.pitch == self.camera.pitch,
    {
        CameraPose { position: self.camera.position, yaw: self.camera.yaw, pitch: self.camera.pitch }
    }

    /// A pure snapshot of every sphere in GPU layout, in scene order; the
    /// conversion is lossless, element by element.
    pub fn snapshot_spheres(&self) -> (us: Vec<SphereUniform>)
        ensures
            us@.len() == self.spheres@.len(),
            forall|i: int|
                0 <= i < us@.len() ==> #[trigger] us@[i] == self.spheres@[i].spec_to_uniform(),
    {
        let mut us: Vec<SphereUniform> = Vec::new();
        let mut i: usize = 0;
        while i < self.spheres.len()
            invariant
                i <= self.spheres@.len(),
                us@.len() == i,
                forall|j: int|
                    0 <= j < i ==> #[trigger] us@[j] == self.spheres@[j].spec_to_uniform(),
            decreases self.spheres@.len() - i,
        {
            us.push(self.spheres[i].to_uniform());
            i = i + 1;
        }
        us
    }

    /// A pure snapshot of every light in GPU layout, in scene order; the
    /// conversion is lossless, element by element.
    pub fn snapshot_lights(&self) -> (us: Vec<LightUniform>)
        ensures
            us@.len() == self.lights@.len(),
            forall|i: int|
                0 <= i < us@.len() ==> #[trigger] us@[i] == self.lights@[i].spec_to_uniform(),
    {
        let mut us: Vec<LightUniform> = Vec::new();
        let mut i: usize = 0;
        while i < self.lights.len()
            invariant
                i <= self.lights@.len(),
                us@.len() == i,
                forall|j: int| 0 <= j < i ==> #[trigger] us@[j] == self.lights@[j].spec_to_uniform(),
            decreases self.lights@.len() - i,
        {
            us.push(self.lights[i].to_uniform());
            i = i + 1;
        }
        us
    }

    /// Apply one frame's camera delta atomically; the object lists are
    /// untouched and the pitch invariant holds afterwards.
    pub fn apply_camera_delta(&mut self, delta: &CameraDelta)
        ensures
            final(self).camera == old(self).camera.spec_apply_delta(*delta),
            final(self).camera.pitch_clamped(),
            final(self).spheres == old(self).spheres,
            final(self).lights == old(self).lights,
    {
        self.camera.apply_camera_delta(delta);
    }
}

} // verus!
