use vstd::prelude::*;
use crate::camera::Camera;
use crate::camera::spec_initial_camera;
use crate::mesh::Transform;
use crate::mesh::TriangleMesh;
use crate::mesh::demo_triangle;
use crate::mesh::spec_demo_triangle;
use crate::viewport::PixelRect;
use crate::viewport::rect_in_range;
use crate::viewport::derive_viewport;
use crate::viewport::spec_derive_viewport;

verus! {

/// Why startup failed.  Both cases are environment preconditions: a window
/// without a working graphics backend has no degraded mode, so the
/// application terminates on either.
#[derive(Clone, Copy, PartialEq, Eq, Structural, Debug)]
pub enum StartupError {
    /// The host window supplied no graphics context at all.
    NoGraphicsContext,
    /// The 3-D library could not bind its rendering context to the host's.
    ContextBindFailed,
}

/// The renderer adapter: the camera, the triangle scene, and the transform
/// the next draw call uses.  The graphics context itself, the GPU copy of the
/// mesh and the draw call live with the application, which mirrors this state
/// into the 3-D library each frame.
#[derive(Clone, Copy, PartialEq, Eq, Structural, Debug)]
pub struct Renderer {
    pub camera: Camera,
    pub mesh: TriangleMesh,
    pub transform: Transform,
}

/// The state a freshly constructed adapter holds: initial camera with a
/// placeholder zero-sized viewport, the demo triangle, no rotation yet.
pub open spec fn spec_initial_renderer() -> Renderer {
    Renderer {
        camera: spec_initial_camera(),
        mesh: spec_demo_triangle(),
        transform: Transform::Identity,
    }
}

/// The state after one paint call: the viewport is recomputed from the
/// reported rectangle, the transform is *replaced* by the absolute rotation
/// for `angle_micro`, and the mesh is untouched.
pub open spec fn spec_paint(r: Renderer, rect: PixelRect, angle_micro: i64) -> Renderer {
    Renderer {
        camera: Camera { viewport: spec_derive_viewport(rect), ..r.camera },
        mesh: r.mesh,
        transform: Transform::RotationY { angle_micro },
    }
}

impl Renderer {
    /// Constructs the adapter.  `context_bound` reports whether the 3-D
    /// library managed to bind a rendering context to the host's graphics
    /// context; without that there is nothing to adapt, and construction
    /// fails so that startup as a whole fails.
    pub fn new(context_bound: bool) -> (r: Result<Renderer, StartupError>)
        ensures
            r is Ok <==> context_bound,
            context_bound ==> r == Ok::<Renderer, StartupError>(spec_initial_renderer()),
            !context_bound ==> r == Err::<Renderer, StartupError>(StartupError::ContextBindFailed),
    {
        if !context_bound {
            return Err(StartupError::ContextBindFailed);
        }
        Ok(Renderer {
            camera: Camera::new_perspective(),
            mesh: demo_triangle(),
            transform: Transform::Identity,
        })
    }

    /// One paint call: derive the viewport for this frame from the reported
    /// pixel rectangle and set the mesh's transformation to the rotation
    /// about the y axis by `angle_micro` microradians — an absolute
    /// transform, never composed with the previous one.  The mesh geometry
    /// and the fixed camera parameters are unchanged.
    pub fn paint(&mut self, rect: &PixelRect, angle_micro: i64)
        requires
            rect_in_range(*rect),
        ensures
            *final(self) == spec_paint(*old(self), *rect, angle_micro),
    {
        let viewport = derive_viewport(rect);
        self.camera.set_viewport(viewport);
        self.transform = Transform::RotationY { angle_micro };
    }
}

} // verus!
