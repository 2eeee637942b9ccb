use vstd::prelude::*;
use crate::pixels::spec_round_half_away;
use crate::pixels::round_milli;

verus! {

/// Bound on each side of a reported rectangle, in milliunits: two billion
/// pixels.  A machine limit only — it keeps the rounded sides inside the
/// viewport's integer fields — far beyond any real canvas.
pub const RECT_MILLI_BOUND: i64 = 2_000_000_000_000;

/// The pixel rectangle the host reports for the canvas region, in milliunits
/// (thousandths of a pixel).  `from_bottom_milli` is the distance from the
/// bottom of the render target, already flipped from the toolkit's top-left
/// origin to the graphics convention, so it becomes the viewport's y origin
/// directly.
#[derive(Clone, Copy, PartialEq, Eq, Structural, Debug)]
pub struct PixelRect {
    pub left_milli: i64,
    pub from_bottom_milli: i64,
    pub width_milli: i64,
    pub height_milli: i64,
}

/// A whole-pixel viewport: the rectangle a camera projects into, in the
/// layout the renderer's draw call takes.
#[derive(Clone, Copy, PartialEq, Eq, Structural, Debug)]
pub struct Viewport {
    pub x: i32,
    pub y: i32,
    pub width: u32,
    pub height: u32,
}

pub open spec fn clamp_to_u32(v: int) -> u32 {
    if v < 0 {
        0u32
    } else {
        v as u32
    }
}

/// Each side of the reported rectangle rounded to the nearest whole pixel,
/// a half away from zero; a negative rounded extent is clamped to zero, the
/// way a saturating float-to-unsigned conversion treats it at the
/// application's floating-point edge.
pub open spec fn spec_derive_viewport(r: PixelRect) -> Viewport {
    Viewport {
        x: spec_round_half_away(r.left_milli as int) as i32,
        y: spec_round_half_away(r.from_bottom_milli as int) as i32,
        width: clamp_to_u32(spec_round_half_away(r.width_milli as int)),
        height: clamp_to_u32(spec_round_half_away(r.height_milli as int)),
    }
}

/// True when every side of `r` is within the machine limit.
pub open spec fn rect_in_range(r: PixelRect) -> bool {
    &&& -RECT_MILLI_BOUND <= r.left_milli <= RECT_MILLI_BOUND
    &&& -RECT_MILLI_BOUND <= r.from_bottom_milli <= RECT_MILLI_BOUND
    &&& -RECT_MILLI_BOUND <= r.width_milli <= RECT_MILLI_BOUND
    &&& -RECT_MILLI_BOUND <= r.height_milli <= RECT_MILLI_BOUND
}

/// A side within the machine limit rounds to well inside `i32` (and so also
/// inside the nonnegative range of `u32` once clamped).
pub proof fn lemma_round_in_range(v: int)
    requires
        -RECT_MILLI_BOUND <= v <= RECT_MILLI_BOUND,
    ensures
        -2_000_000_001 <= spec_round_half_away(v) <= 2_000_000_001,
{
    crate::pixels::lemma_round_is_nearest(v);
}

/// Recomputes the viewport for one frame from the reported pixel rectangle.
pub fn derive_viewport(r: &PixelRect) -> (v: Viewport)
    requires
        rect_in_range(*r),
    ensures
        v == spec_derive_viewport(*r),
{
    proof {
        lemma_round_in_range(r.left_milli as int);
        lemma_round_in_range(r.from_bottom_milli as int);
        lemma_round_in_range(r.width_milli as int);
        lemma_round_in_range(r.height_milli as int);
    }
    let x = round_milli(r.left_milli);
    let y = round_milli(r.from_bottom_milli);
    let w = round_milli(r.width_milli);
    let h = round_milli(r.height_milli);
    Viewport {
        x: x as i32,
        y: y as i32,
        width: if w < 0 { 0 } else { w as u32 },
        height: if h < 0 { 0 } else { h as u32 },
    }
}

} // verus!
