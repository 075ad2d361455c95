//! Frame-orchestration and GPU-resource lifecycle core of a small compute
//! raytracer.
//!
//! The library models, over plain integer values, the state that drives one
//! frame of rendering: the camera pose, the immutable sphere/light scene and
//! its GPU-layout snapshots, the rotating pool of host-visible uniform
//! buffers, the swapchain surface with its size-dependent resources, and the
//! orchestrator that chains acquire, dispatch and present while keeping at
//! most one frame in flight.
//!
//! Scalars that travel to the GPU are carried as `u32` bit patterns of the
//! 32-bit IEEE values the kernel reads; camera pose and input arithmetic use
//! fixed-point micro-units (millionths). The windowing and GPU backends live
//! outside the library and feed it plain events and dimensions.

pub mod bits;
pub mod camera;
pub mod dispatch;
pub mod input;
pub mod light;
pub mod numeric;
pub mod orchestrator;
pub mod scene;
pub mod sphere;
pub mod staging;
pub mod surface;
