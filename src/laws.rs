use vstd::prelude::*;
use crate::geometry::{WorldPos, world_of};
use crate::drawing::{
    ButtonEvent, DrawingView, FrameView, Handle, held_after, pressed_during, point_at, run,
    initial,
};
use crate::presentation::{sync_targets, synced};

verus! {

/// Syncing the presentation layer twice in a row, with no input handled in
/// between, leaves the same transforms as syncing once.
pub proof fn lemma_sync_idempotent(t: Map<Handle, WorldPos>, s: DrawingView)
    ensures
        synced(synced(t, s), s) == synced(t, s),
{
    assert(synced(synced(t, s), s) =~= synced(t, s));
}

/// While the button is held and only presses arrive (no release), the
/// button stays held and no released-to-pressed transition happens.
proof fn lemma_holding(evs: Seq<ButtonEvent>)
    requires
        forall|j: int| 0 <= j < evs.len() ==> #[trigger] evs[j] == ButtonEvent::Pressed,
    ensures
        held_after(true, evs),
        !pressed_during(true, evs),
    decreases evs.len(),
{
    if evs.len() > 0 {
        let d = evs.drop_last();
        assert forall|j: int| 0 <= j < d.len() implies #[trigger] d[j] == ButtonEvent::Pressed by {
            assert(d[j] == evs[j]);
        }
        lemma_holding(d);
    }
}

/// A single press from a released button is one transition and leaves the
/// button held.
proof fn lemma_single_press()
    ensures
        pressed_during(false, seq![ButtonEvent::Pressed]),
        held_after(false, seq![ButtonEvent::Pressed]),
{
    assert(seq![ButtonEvent::Pressed].drop_last() =~= Seq::<ButtonEvent>::empty());
}

/// A press followed by a release, from a released button, is one transition
/// and leaves the button released.
proof fn lemma_press_release()
    ensures
        pressed_during(false, seq![ButtonEvent::Pressed, ButtonEvent::Released]),
        !held_after(false, seq![ButtonEvent::Pressed, ButtonEvent::Released]),
{
    assert(seq![ButtonEvent::Pressed, ButtonEvent::Released].drop_last() =~= seq![
        ButtonEvent::Pressed,
    ]);
    lemma_single_press();
}

/// Pressing the left button once and holding it, without release, through
/// any number of frames places exactly one point: the one at the cursor of
/// the frame in which the button went down.
pub proof fn lemma_held_button_places_one(s: DrawingView, fs: Seq<FrameView>)
    requires
        !s.left_held,
        fs.len() >= 1,
        fs[0].left == seq![ButtonEvent::Pressed],
        fs[0].cursor is Some,
        forall|i: int, j: int|
            1 <= i < fs.len() && 0 <= j < fs[i].left.len() ==> #[trigger] fs[i].left[j]
                == ButtonEvent::Pressed,
    ensures
        run(s, fs).points == s.points.push(point_at(fs[0].cursor->Some_0, s.current_level)),
        run(s, fs).left_held,
    decreases fs.len(),
{
    let d = fs.drop_last();
    if fs.len() == 1 {
        assert(d =~= Seq::<FrameView>::empty());
        assert(run(s, d) == s);
        assert(fs.last() == fs[0]);
        lemma_single_press();
    } else {
        assert forall|i: int, j: int|
            1 <= i < d.len() && 0 <= j < d[i].left.len() implies #[trigger] d[i].left[j]
            == ButtonEvent::Pressed by {
            assert(d[i] == fs[i]);
        }
        lemma_held_button_places_one(s, d);
        let last = fs.last();
        assert forall|j: int| 0 <= j < last.left.len() implies #[trigger] last.left[j]
            == ButtonEvent::Pressed by {
            assert(fs[fs.len() - 1].left[j] == ButtonEvent::Pressed);
        }
        lemma_holding(last.left);
    }
}

/// Points keep the level they were placed on: whatever frames follow, every
/// existing point stays as it is, and every new one carries the level that
/// was active when it was placed.
pub proof fn lemma_points_keep_level(s: DrawingView, fs: Seq<FrameView>)
    ensures
        run(s, fs).current_level == s.current_level,
        run(s, fs).points.len() >= s.points.len(),
        forall|i: int| 0 <= i < s.points.len() ==> #[trigger] run(s, fs).points[i] == s.points[i],
        forall|i: int|
            s.points.len() <= i < run(s, fs).points.len() ==> (#[trigger] run(s, fs).points[i]).level
                == s.current_level,
    decreases fs.len(),
{
    if fs.len() > 0 {
        lemma_points_keep_level(s, fs.drop_last());
    }
}

/// A clean click: the button goes down and up again within the frame, with
/// the cursor in the window.
pub open spec fn is_click(f: FrameView) -> bool {
    f.left == seq![ButtonEvent::Pressed, ButtonEvent::Released] && f.cursor is Some
}

/// After `k` clicks from startup there are exactly `k` points, under the
/// handles `0..k`, the i-th at the i-th click's position and on level zero;
/// a sync then shows exactly those `k` visuals at those positions.
pub proof fn lemma_clicks_accumulate(fs: Seq<FrameView>)
    requires
        forall|i: int| 0 <= i < fs.len() ==> is_click(#[trigger] fs[i]),
    ensures
        run(initial(), fs).points.len() == fs.len(),
        forall|i: int|
            0 <= i < fs.len() ==> #[trigger] run(initial(), fs).points[i] == point_at(
                fs[i].cursor->Some_0,
                0,
            ),
        !run(initial(), fs).left_held,
        run(initial(), fs).current_level == 0,
        sync_targets(run(initial(), fs)).dom() == Set::new(|h: Handle| h < fs.len()),
        forall|h: Handle|
            h < fs.len() ==> #[trigger] sync_targets(run(initial(), fs))[h] == world_of(
                fs[h as int].cursor->Some_0,
            ),
    decreases fs.len(),
{
    if fs.len() > 0 {
        let d = fs.drop_last();
        assert forall|i: int| 0 <= i < d.len() implies is_click(#[trigger] d[i]) by {
            assert(d[i] == fs[i]);
        }
        lemma_clicks_accumulate(d);
        assert(is_click(fs[fs.len() - 1]));
        lemma_press_release();
        assert forall|i: int| 0 <= i < fs.len() implies #[trigger] run(initial(), fs).points[i]
            == point_at(fs[i].cursor->Some_0, 0) by {
            if i < d.len() {
                assert(d[i] == fs[i]);
            }
        }
    }
    assert(sync_targets(run(initial(), fs)).dom() =~= Set::new(|h: Handle| h < fs.len()));
}

} // verus!
