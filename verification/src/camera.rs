use vstd::prelude::*;
use crate::mesh::Point3;
use crate::viewport::Viewport;

verus! {

/// The perspective camera of the demo.  Everything but the viewport is fixed
/// at construction; the viewport is recomputed every frame because the canvas
/// can move between frames.
#[derive(Clone, Copy, PartialEq, Eq, Structural, Debug)]
pub struct Camera {
    pub viewport: Viewport,
    /// Eye position, in milliunits of scene space.
    pub eye: Point3,
    /// Point looked at.
    pub target: Point3,
    /// Up direction (a direction, same milliunit encoding).
    pub up: Point3,
    /// Vertical field of view, in whole degrees.
    pub fov_degrees: u32,
    /// Near clipping plane distance, in milliunits.
    pub near_milli: i64,
    /// Far clipping plane distance, in milliunits.
    pub far_milli: i64,
}

/// The camera the demo starts with: placeholder zero-sized viewport, eye two
/// units back on the z axis, looking at the origin with y up, a 45 degree
/// field of view, near plane at a tenth of a unit, far plane at ten units.
pub open spec fn spec_initial_camera() -> Camera {
    Camera {
        viewport: Viewport { x: 0, y: 0, width: 0, height: 0 },
        eye: Point3 { x_milli: 0, y_milli: 0, z_milli: 2000 },
        target: Point3 { x_milli: 0, y_milli: 0, z_milli: 0 },
        up: Point3 { x_milli: 0, y_milli: 1000, z_milli: 0 },
        fov_degrees: 45,
        near_milli: 100,
        far_milli: 10000,
    }
}

impl Camera {
    /// Builds the initial camera.
    pub fn new_perspective() -> (c: Camera)
        ensures
            c == spec_initial_camera(),
    {
        Camera {
            viewport: Viewport { x: 0, y: 0, width: 0, height: 0 },
            eye: Point3 { x_milli: 0, y_milli: 0, z_milli: 2000 },
            target: Point3 { x_milli: 0, y_milli: 0, z_milli: 0 },
            up: Point3 { x_milli: 0, y_milli: 1000, z_milli: 0 },
            fov_degrees: 45,
            near_milli: 100,
            far_milli: 10000,
        }
    }

    /// Replaces the viewport and nothing else.
    pub fn set_viewport(&mut self, v: Viewport)
        ensures
            *final(self) == (Camera { viewport: v, ..*old(self) }),
    {
        self.viewport = v;
    }
}

} // verus!
