//! Compute-dispatch sizing. The kernel runs in fixed 8-by-8 workgroups
//! and the output image dimensions are chosen to be exact multiples of
//! that size, so the grid is a plain integer division that covers the
//! image exactly.

use vstd::prelude::*;

verus! {

/// Output image width, in pixels; a multiple of the workgroup size.
pub const IMAGE_WIDTH: u32 = 1080;

/// Output image height, in pixels; a multiple of the workgroup size.
pub const IMAGE_HEIGHT: u32 = 1080;

/// Fixed side length of one compute workgroup.
pub const WORKGROUP_SIZE: u32 = 8;

/// The dispatch grid: workgroup counts per dimension.
#[derive(Clone, Copy, Debug, PartialEq, Eq, Structural)]
pub struct DispatchGrid {
    pub x: u32,
    pub y: u32,
    pub z: u32,
}

/// The workgroup grid that covers a `width` by `height` image exactly:
/// integer division, with the multiple-of-workgroup requirement making
/// any remainder handling unnecessary.
pub fn dispatch_grid(width: u32, height: u32) -> (g: DispatchGrid)
    requires
        width % WORKGROUP_SIZE == 0,
        height % WORKGROUP_SIZE == 0,
    ensures
        g.x == width / WORKGROUP_SIZE,
        g.y == height / WORKGROUP_SIZE,
        g.z == 1,
        g.x * WORKGROUP_SIZE == width,
        g.y * WORKGROUP_SIZE == height,
{
    DispatchGrid { x: width / WORKGROUP_SIZE, y: height / WORKGROUP_SIZE, z: 1 }
}

/// The fixed point the cursor is warped back to after each sample: the
/// center of the image.
pub fn cursor_center(width: u32, height: u32) -> (c: (i32, i32))
    requires
        width <= 0x7FFF_FFFF,
        height <= 0x7FFF_FFFF,
    ensures
        c.0 == width as int / 2,
        c.1 == height as int / 2,
{
    ((width / 2) as i32, (height / 2) as i32)
}

} // verus!
