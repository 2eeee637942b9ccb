use vstd::prelude::*;

verus! {

/// One vertex color, non-linear sRGB with alpha, as the material consumes it.
#[derive(Clone, Copy, PartialEq, Eq, Structural, Debug)]
pub struct Rgba {
    pub r: u8,
    pub g: u8,
    pub b: u8,
    pub a: u8,
}

/// A point in scene space, in milliunits (thousandths of a scene unit).
#[derive(Clone, Copy, PartialEq, Eq, Structural, Debug)]
pub struct Point3 {
    pub x_milli: i64,
    pub y_milli: i64,
    pub z_milli: i64,
}

/// One mesh vertex: a position and the color interpolated from it.
#[derive(Clone, Copy, PartialEq, Eq, Structural, Debug)]
pub struct Vertex {
    pub position: Point3,
    pub color: Rgba,
}

/// The demo's whole scene geometry: exactly three vertices, fixed at
/// construction and never modified afterwards — only the model transform
/// changes between frames.
#[derive(Clone, Copy, PartialEq, Eq, Structural, Debug)]
pub struct TriangleMesh {
    pub bottom_right: Vertex,
    pub bottom_left: Vertex,
    pub top: Vertex,
}

/// The transformation the mesh is drawn with.  Each frame replaces it with
/// an absolute rotation about the vertical (y) axis; nothing ever composes
/// two of them.
#[derive(Clone, Copy, PartialEq, Eq, Structural, Debug)]
pub enum Transform {
    /// The transform a freshly built mesh carries.
    Identity,
    /// Rotation about the y axis by `angle_micro` microradians.
    RotationY { angle_micro: i64 },
}

/// The triangle the demo draws: half a unit wide to each side, red at the
/// bottom right, green at the bottom left, blue at the top.
pub open spec fn spec_demo_triangle() -> TriangleMesh {
    TriangleMesh {
        bottom_right: Vertex {
            position: Point3 { x_milli: 500, y_milli: -500i64, z_milli: 0 },
            color: Rgba { r: 255, g: 0, b: 0, a: 255 },
        },
        bottom_left: Vertex {
            position: Point3 { x_milli: -500i64, y_milli: -500i64, z_milli: 0 },
            color: Rgba { r: 0, g: 255, b: 0, a: 255 },
        },
        top: Vertex {
            position: Point3 { x_milli: 0, y_milli: 500, z_milli: 0 },
            color: Rgba { r: 0, g: 0, b: 255, a: 255 },
        },
    }
}

/// Builds the demo triangle.
pub fn demo_triangle() -> (m: TriangleMesh)
    ensures
        m == spec_demo_triangle(),
{
    TriangleMesh {
        bottom_right: Vertex {
            position: Point3 { x_milli: 500, y_milli: -500, z_milli: 0 },
            color: Rgba { r: 255, g: 0, b: 0, a: 255 },
        },
        bottom_left: Vertex {
            position: Point3 { x_milli: -500, y_milli: -500, z_milli: 0 },
            color: Rgba { r: 0, g: 255, b: 0, a: 255 },
        },
        top: Vertex {
            position: Point3 { x_milli: 0, y_milli: 500, z_milli: 0 },
            color: Rgba { r: 0, g: 0, b: 255, a: 255 },
        },
    }
}

} // verus!
