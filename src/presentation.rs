use vstd::prelude::*;
use crate::geometry::WorldPos;
use crate::drawing::{DrawingState, DrawingView, Handle};

verus! {

/// A request to the presentation layer: show the shared point marker for
/// `handle` with its transform's translation at `translation`.
#[derive(Clone, Copy, Debug, PartialEq, Eq, Structural)]
pub struct RenderRequest {
    pub handle: Handle,
    pub translation: WorldPos,
}

/// The translation each point's visual must have: one entry per point,
/// at the point's position.
pub open spec fn sync_targets(s: DrawingView) -> Map<Handle, WorldPos> {
    Map::new(|h: Handle| h < s.points.len(), |h: Handle| s.points[h as int].position)
}

/// The presentation layer's transforms, by handle, after a sync of `s` onto
/// transforms `t`: every point's visual is set, other visuals are left alone.
pub open spec fn synced(t: Map<Handle, WorldPos>, s: DrawingView) -> Map<Handle, WorldPos> {
    t.union_prefer_right(sync_targets(s))
}

impl DrawingState {
    /// What a sync asks of the presentation layer: one request per point,
    /// in handle order, at the point's position.
    pub fn render_requests(&self) -> (r: Vec<RenderRequest>)
        ensures
            r@.len() == self@.points.len(),
            forall|i: int|
                0 <= i < r@.len() ==> (#[trigger] r@[i]).handle == i && r@[i].translation
                    == self@.points[i].position,
    {
        let n = self.point_count();
        let mut out: Vec<RenderRequest> = Vec::new();
        let mut h: usize = 0;
        while h < n
            invariant
                n == self@.points.len(),
                h <= n,
                out@.len() == h,
                forall|i: int|
                    0 <= i < h ==> (#[trigger] out@[i]).handle == i && out@[i].translation
                        == self@.points[i].position,
            decreases n - h,
        {
            let p = self.point(h).unwrap();
            out.push(RenderRequest { handle: h, translation: p.position });
            h = h + 1;
        }
        out
    }
}

} // verus!
