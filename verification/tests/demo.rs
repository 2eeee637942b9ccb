use rotating_triangle::mesh::{demo_triangle, Transform};
use rotating_triangle::pixels::round_milli;
use rotating_triangle::renderer::{Renderer, StartupError};
use rotating_triangle::shell::{frame, Shell, CANVAS_SIDE_POINTS, MICRORADIANS_PER_MILLIPOINT};
use rotating_triangle::viewport::{derive_viewport, PixelRect, Viewport};

fn square_rect(side_milli: i64) -> PixelRect {
    PixelRect {
        left_milli: 0,
        from_bottom_milli: 0,
        width_milli: side_milli,
        height_milli: side_milli,
    }
}

fn fresh() -> (Shell, Renderer) {
    Shell::new(true, true).expect("startup with a bound context succeeds")
}

#[test]
fn angle_accumulates_sum_of_deltas() {
    let (mut shell, _renderer) = fresh();
    // drags of +1.5, -0.25 and +3.0 logical points, in millipoints
    let deltas: Vec<i64> = vec![1_500, -250, 3_000];
    for d in &deltas {
        shell.apply_drag(*d);
    }
    // sum is 4.25 points; at 0.01 rad per point the angle is 0.0425 rad
    assert_eq!(shell.angle_micro, 42_500);
    assert_eq!(
        shell.angle_micro,
        MICRORADIANS_PER_MILLIPOINT * (1_500 - 250 + 3_000)
    );
}

#[test]
fn angle_is_order_independent() {
    let deltas: Vec<i64> = vec![700, -1_200, 45, 0, 99_999];
    let mut forward = Shell::new(true, true).unwrap().0;
    for d in &deltas {
        forward.apply_drag(*d);
    }
    let mut backward = Shell::new(true, true).unwrap().0;
    for d in deltas.iter().rev() {
        backward.apply_drag(*d);
    }
    assert_eq!(forward.angle_micro, backward.angle_micro);
}

#[test]
fn viewport_passes_whole_pixels_through() {
    let rect = PixelRect {
        left_milli: 7_000,
        from_bottom_milli: 13_000,
        width_milli: 512_000,
        height_milli: 384_000,
    };
    let v = derive_viewport(&rect);
    assert_eq!(
        v,
        Viewport {
            x: 7,
            y: 13,
            width: 512,
            height: 384,
        }
    );
}

#[test]
fn viewport_rounds_to_nearest() {
    let rect = PixelRect {
        left_milli: 2_499,
        from_bottom_milli: -2_499,
        width_milli: 511_501,
        height_milli: 100_499,
    };
    let v = derive_viewport(&rect);
    assert_eq!(
        v,
        Viewport {
            x: 2,
            y: -2,
            width: 512,
            height: 100,
        }
    );
}

#[test]
fn rounding_half_goes_away_from_zero() {
    // the documented convention at exact half-pixel boundaries
    assert_eq!(round_milli(2_500), 3);
    assert_eq!(round_milli(-2_500), -3);
    assert_eq!(round_milli(500), 1);
    assert_eq!(round_milli(-500), -1);
    assert_eq!(round_milli(1_500), 2);
    assert_eq!(round_milli(-1_500), -2);
    assert_eq!(round_milli(0), 0);
    // matches the float rounding primitive the host toolkit uses
    assert_eq!(round_milli(2_500), (2.5f32).round() as i64);
    assert_eq!(round_milli(-2_500), (-2.5f32).round() as i64);
}

#[test]
fn negative_extent_clamps_to_zero() {
    let rect = PixelRect {
        left_milli: 0,
        from_bottom_milli: 0,
        width_milli: -1_000,
        height_milli: -499,
    };
    let v = derive_viewport(&rect);
    assert_eq!(v.width, 0);
    assert_eq!(v.height, 0);
}

#[test]
fn paint_replaces_transform_instead_of_composing() {
    let (_shell, mut renderer) = fresh();
    let rect = square_rect(512_000);
    // 30 degrees, then 90 degrees, in microradians
    let thirty: i64 = 523_599;
    let ninety: i64 = 1_570_796;
    renderer.paint(&rect, thirty);
    renderer.paint(&rect, ninety);
    // the second paint leaves a pure 90-degree rotation, not 120 degrees
    assert_eq!(
        renderer.transform,
        Transform::RotationY {
            angle_micro: ninety
        }
    );
}

#[test]
fn paint_leaves_mesh_untouched() {
    let (_shell, mut renderer) = fresh();
    let before = renderer.mesh;
    assert_eq!(before, demo_triangle());
    for i in 0..10i64 {
        renderer.paint(&square_rect(512_000), i * 77_777);
        renderer.paint(&square_rect(1_000 + i), -i);
    }
    assert_eq!(renderer.mesh, before);
}

#[test]
fn startup_fails_without_graphics_context() {
    assert_eq!(
        Shell::new(false, true),
        Err(StartupError::NoGraphicsContext)
    );
    assert_eq!(
        Shell::new(false, false),
        Err(StartupError::NoGraphicsContext)
    );
    assert_eq!(
        Shell::new(true, false),
        Err(StartupError::ContextBindFailed)
    );
    assert_eq!(Renderer::new(false), Err(StartupError::ContextBindFailed));
    assert!(Shell::new(true, true).is_ok());
}

#[test]
fn end_to_end_drag_then_paint() {
    let (mut shell, mut renderer) = fresh();
    assert_eq!(shell.angle_micro, 0);
    // one frame: a drag of +100 logical points, canvas reported at (0,0,512,512)
    let side_milli = 1_000 * CANVAS_SIDE_POINTS as i64;
    frame(&mut shell, &mut renderer, 100_000, &square_rect(side_milli));
    // 100 points at 0.01 rad per point: exactly one radian
    assert_eq!(shell.angle_micro, 1_000_000);
    assert_eq!(
        renderer.transform,
        Transform::RotationY {
            angle_micro: 1_000_000
        }
    );
    // already-integer input passes through with no rounding artifacts
    assert_eq!(
        renderer.camera.viewport,
        Viewport {
            x: 0,
            y: 0,
            width: 512,
            height: 512,
        }
    );
}

#[test]
fn initial_camera_matches_construction_constants() {
    let (_shell, renderer) = fresh();
    let c = renderer.camera;
    assert_eq!(c.viewport, Viewport { x: 0, y: 0, width: 0, height: 0 });
    assert_eq!((c.eye.x_milli, c.eye.y_milli, c.eye.z_milli), (0, 0, 2_000));
    assert_eq!((c.target.x_milli, c.target.y_milli, c.target.z_milli), (0, 0, 0));
    assert_eq!((c.up.x_milli, c.up.y_milli, c.up.z_milli), (0, 1_000, 0));
    assert_eq!(c.fov_degrees, 45);
    assert_eq!(c.near_milli, 100);
    assert_eq!(c.far_milli, 10_000);
    assert_eq!(renderer.transform, Transform::Identity);
}
