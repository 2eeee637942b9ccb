use vstd::prelude::*;
use crate::renderer::Renderer;
use crate::renderer::StartupError;
use crate::renderer::spec_initial_renderer;
use crate::renderer::spec_paint;
use crate::viewport::PixelRect;
use crate::viewport::rect_in_range;

verus! {

/// Drag sensitivity: one millipoint (a thousandth of a logical point) of
/// horizontal drag turns the triangle by ten microradians — that is, a
/// hundredth of a radian per logical point.
pub const MICRORADIANS_PER_MILLIPOINT: i64 = 10;

/// Side of the square canvas region the shell allocates each frame, in
/// logical points.
pub const CANVAS_SIDE_POINTS: u32 = 512;

/// The application shell's own state: the rotation angle the drags have
/// accumulated so far, in microradians.  The angle is unbounded by design
/// (rotation is periodic); only the machine's integer range limits it.
#[derive(Clone, Copy, PartialEq, Eq, Structural, Debug)]
pub struct Shell {
    pub angle_micro: i64,
}

impl Shell {
    /// Constructs the shell and the renderer adapter it will drive.
    /// `gl_available` reports whether the host window supplied a graphics
    /// context, `context_bound` whether the 3-D library could bind to it.
    /// Either failure is fatal: no shell exists, startup propagates the
    /// error, and no window content is ever shown.
    pub fn new(gl_available: bool, context_bound: bool) -> (r: Result<
        (Shell, Renderer),
        StartupError,
    >)
        ensures
            r is Ok <==> gl_available && context_bound,
            !gl_available ==> r == Err::<(Shell, Renderer), StartupError>(
                StartupError::NoGraphicsContext,
            ),
            gl_available && !context_bound ==> r == Err::<(Shell, Renderer), StartupError>(
                StartupError::ContextBindFailed,
            ),
            gl_available && context_bound ==> r == Ok::<(Shell, Renderer), StartupError>(
                (Shell { angle_micro: 0 }, spec_initial_renderer()),
            ),
    {
        if !gl_available {
            return Err(StartupError::NoGraphicsContext);
        }
        let renderer = Renderer::new(context_bound)?;
        Ok((Shell { angle_micro: 0 }, renderer))
    }

    /// Accumulates one frame's horizontal drag delta (in millipoints) into
    /// the angle.  Pure addition: over a whole session the angle is the sum
    /// of all deltas times the sensitivity, whatever order they came in.
    /// The bounds only keep the products and the sum inside `i64`.
    pub fn apply_drag(&mut self, delta_x_milli: i64)
        requires
            i64::MIN <= MICRORADIANS_PER_MILLIPOINT * delta_x_milli <= i64::MAX,
            i64::MIN <= old(self).angle_micro + MICRORADIANS_PER_MILLIPOINT * delta_x_milli
                <= i64::MAX,
        ensures
            final(self).angle_micro == old(self).angle_micro + MICRORADIANS_PER_MILLIPOINT
                * delta_x_milli,
    {
        self.angle_micro = self.angle_micro + MICRORADIANS_PER_MILLIPOINT * delta_x_milli;
    }
}

/// One whole frame of the demo: the shell folds this frame's drag delta into
/// the angle, and the renderer is painted with the *new* angle and this
/// frame's reported canvas rectangle.  In the running application the paint
/// happens later in the frame, through a deferred callback that captured the
/// updated angle by value; the state change is exactly this.
pub fn frame(shell: &mut Shell, renderer: &mut Renderer, delta_x_milli: i64, rect: &PixelRect)
    requires
        rect_in_range(*rect),
        i64::MIN <= MICRORADIANS_PER_MILLIPOINT * delta_x_milli <= i64::MAX,
        i64::MIN <= old(shell).angle_micro + MICRORADIANS_PER_MILLIPOINT * delta_x_milli
            <= i64::MAX,
    ensures
        final(shell).angle_micro == old(shell).angle_micro + MICRORADIANS_PER_MILLIPOINT
            * delta_x_milli,
        *final(renderer) == spec_paint(*old(renderer), *rect, final(shell).angle_micro),
{
    shell.apply_drag(delta_x_milli);
    renderer.paint(rect, shell.angle_micro);
}

} // verus!
