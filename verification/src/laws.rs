use vstd::prelude::*;
use crate::mesh::Transform;
use crate::renderer::Renderer;
use crate::renderer::spec_paint;
use crate::shell::MICRORADIANS_PER_MILLIPOINT;
use crate::viewport::PixelRect;

verus! {

/// Sum of a sequence of drag deltas.
pub open spec fn sum_of(ds: Seq<int>) -> int
    decreases ds.len(),
{
    if ds.len() == 0 {
        0
    } else {
        sum_of(ds.drop_last()) + ds.last()
    }
}

/// The angle after a session: starting from `start` microradians, each
/// frame's drag delta is folded in as `Shell::apply_drag` does.
pub open spec fn angle_after(start: int, ds: Seq<int>) -> int
    decreases ds.len(),
{
    if ds.len() == 0 {
        start
    } else {
        angle_after(start, ds.drop_last()) + MICRORADIANS_PER_MILLIPOINT * ds.last()
    }
}

/// Angle accumulation: after any sequence of drag deltas the angle is the
/// starting angle plus the sum of the deltas times the fixed sensitivity —
/// frame-by-frame accumulation is pure addition.
pub proof fn lemma_angle_accumulation(start: int, ds: Seq<int>)
    ensures
        angle_after(start, ds) == start + MICRORADIANS_PER_MILLIPOINT * sum_of(ds),
    decreases ds.len(),
{
    if ds.len() > 0 {
        lemma_angle_accumulation(start, ds.drop_last());
    }
}

/// Removing one element takes exactly its value out of the sum.
proof fn lemma_sum_remove(ds: Seq<int>, i: int)
    requires
        0 <= i < ds.len(),
    ensures
        sum_of(ds.remove(i)) == sum_of(ds) - ds[i],
    decreases ds.len(),
{
    if i == ds.len() - 1 {
        assert(ds.remove(i) =~= ds.drop_last());
    } else {
        assert(ds.remove(i).drop_last() =~= ds.drop_last().remove(i));
        lemma_sum_remove(ds.drop_last(), i);
    }
}

/// The sum of the deltas does not depend on their order: two sessions whose
/// drags form the same multiset end at the same sum.
pub proof fn lemma_sum_permutation(a: Seq<int>, b: Seq<int>)
    requires
        a.to_multiset() == b.to_multiset(),
    ensures
        sum_of(a) == sum_of(b),
    decreases a.len(),
{
    broadcast use vstd::seq_lib::group_to_multiset_ensures;

    if a.len() == 0 {
        assert(b.to_multiset().len() == 0);
    } else {
        let x = a.last();
        assert(a.contains(x));
        assert(b.to_multiset().count(x) > 0);
        assert(b.contains(x));
        let j = choose|j: int| 0 <= j < b.len() && b[j] == x;
        assert(a.drop_last() =~= a.remove(a.len() - 1));
        assert(a.remove(a.len() - 1).to_multiset() =~= b.remove(j).to_multiset());
        lemma_sum_permutation(a.drop_last(), b.remove(j));
        lemma_sum_remove(b, j);
    }
}

/// Order independence of the accumulated angle: any reordering of the same
/// drag deltas leaves the final angle equal.
pub proof fn lemma_angle_order_independent(start: int, a: Seq<int>, b: Seq<int>)
    requires
        a.to_multiset() == b.to_multiset(),
    ensures
        angle_after(start, a) == angle_after(start, b),
{
    lemma_sum_permutation(a, b);
    lemma_angle_accumulation(start, a);
    lemma_angle_accumulation(start, b);
}

/// The renderer after a whole session of paint calls, applied in order.
pub open spec fn paint_all(r: Renderer, calls: Seq<(PixelRect, i64)>) -> Renderer
    decreases calls.len(),
{
    if calls.len() == 0 {
        r
    } else {
        spec_paint(paint_all(r, calls.drop_last()), calls.last().0, calls.last().1)
    }
}

/// Transform replacement, not composition: after two paint calls the mesh
/// carries the pure rotation of the second angle alone, whatever the first
/// angle was.
pub proof fn lemma_transform_replaced(
    r: Renderer,
    rect1: PixelRect,
    angle1: i64,
    rect2: PixelRect,
    angle2: i64,
)
    ensures
        spec_paint(spec_paint(r, rect1, angle1), rect2, angle2).transform == (
        Transform::RotationY { angle_micro: angle2 }),
{
}

/// Mesh invariance: vertex positions and colors are identical before and
/// after any number of paint calls — only the transform and the camera's
/// viewport change.
pub proof fn lemma_mesh_invariant(r: Renderer, calls: Seq<(PixelRect, i64)>)
    ensures
        paint_all(r, calls).mesh == r.mesh,
    decreases calls.len(),
{
    if calls.len() > 0 {
        lemma_mesh_invariant(r, calls.drop_last());
    }
}

} // verus!
