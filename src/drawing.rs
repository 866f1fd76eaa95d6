use vstd::prelude::*;
use crate::geometry::{CursorPos, WorldPos, world_of, to_world};

verus! {

/// Opaque handle of a point: handles are handed out in order, starting at
/// zero, and a handle is the point's index among all points ever placed.
pub type Handle = usize;

/// A user-placed marker: where it is and the drawing level it was placed on.
#[derive(Clone, Copy, Debug, PartialEq, Eq, Structural)]
pub struct Point {
    pub position: WorldPos,
    pub level: usize,
}

/// A connector between two points. Declared for later use: nothing creates one.
#[derive(Clone, Copy, Debug, PartialEq, Eq, Structural)]
pub struct Line {
    pub start: Handle,
    pub end: Handle,
    pub level: u32,
}

/// A transition of the left mouse button, as reported by the input layer.
#[derive(Clone, Copy, Debug, PartialEq, Eq, Structural)]
pub enum ButtonEvent {
    Pressed,
    Released,
}

/// What one frame delivers: the left button's transitions, in order, and the
/// cursor position, absent while the cursor is outside the window.
pub struct FrameInput {
    pub left: Vec<ButtonEvent>,
    pub cursor: Option<CursorPos>,
}

pub ghost struct FrameView {
    pub left: Seq<ButtonEvent>,
    pub cursor: Option<CursorPos>,
}

impl View for FrameInput {
    type V = FrameView;

    open spec fn view(&self) -> FrameView {
        FrameView { left: self.left@, cursor: self.cursor }
    }
}

/// Whether the button is held after `evs`, starting from `held`.
pub open spec fn held_after(held: bool, evs: Seq<ButtonEvent>) -> bool {
    if evs.len() == 0 {
        held
    } else {
        evs.last() is Pressed
    }
}

/// Whether `evs`, starting from `held`, takes the button from released to
/// pressed at least once. A press while already held is no transition.
pub open spec fn pressed_during(held: bool, evs: Seq<ButtonEvent>) -> bool
    decreases evs.len(),
{
    if evs.len() == 0 {
        false
    } else {
        pressed_during(held, evs.drop_last()) || (evs.last() is Pressed && !held_after(
            held,
            evs.drop_last(),
        ))
    }
}

/// The whole drawing: every point placed so far, the (unused) lines, the
/// active level, and whether the left button was held at the end of the last
/// frame.
pub struct DrawingState {
    current_level: usize,
    points: Vec<Point>,
    lines: Vec<Line>,
    left_held: bool,
}

pub ghost struct DrawingView {
    pub current_level: usize,
    pub points: Seq<Point>,
    pub lines: Seq<Line>,
    pub left_held: bool,
}

impl View for DrawingState {
    type V = DrawingView;

    closed spec fn view(&self) -> DrawingView {
        DrawingView {
            current_level: self.current_level,
            points: self.points@,
            lines: self.lines@,
            left_held: self.left_held,
        }
    }
}

/// The point a click at `c` places while `level` is active.
pub open spec fn point_at(c: CursorPos, level: usize) -> Point {
    Point { position: world_of(c), level }
}

/// Whether frame `f` asks for a point on top of state `s`.
pub open spec fn clicked(s: DrawingView, f: FrameView) -> bool {
    pressed_during(s.left_held, f.left)
}

/// The drawing after one frame: a released-to-pressed transition of the left
/// button places one point at the cursor, if there is a cursor.
pub open spec fn step(s: DrawingView, f: FrameView) -> DrawingView {
    DrawingView {
        points: if clicked(s, f) && f.cursor is Some {
            s.points.push(point_at(f.cursor->Some_0, s.current_level))
        } else {
            s.points
        },
        left_held: held_after(s.left_held, f.left),
        ..s
    }
}

/// The drawing after the frames `fs`, in order.
pub open spec fn run(s: DrawingView, fs: Seq<FrameView>) -> DrawingView
    decreases fs.len(),
{
    if fs.len() == 0 {
        s
    } else {
        step(run(s, fs.drop_last()), fs.last())
    }
}

/// The drawing at startup: no points, no lines, level zero, button up.
pub open spec fn initial() -> DrawingView {
    DrawingView { current_level: 0, points: Seq::empty(), lines: Seq::empty(), left_held: false }
}

/// What the input handler did in one frame.
#[derive(Clone, Copy, Debug, PartialEq, Eq, Structural)]
pub enum ClickOutcome {
    /// No released-to-pressed transition of the left button.
    NoClick,
    /// A point was placed under this handle.
    Placed { handle: Handle, point: Point },
    /// The button went down while the cursor had no position: nothing placed.
    CursorUnavailable,
}

impl DrawingState {
    /// Empty drawing at level zero.
    pub fn new() -> (r: DrawingState)
        ensures
            r@ == initial(),
    {
        DrawingState { current_level: 0, points: Vec::new(), lines: Vec::new(), left_held: false }
    }

    /// Handles one frame's input: tracks the left button and, on a
    /// released-to-pressed transition, places a point at the cursor under the
    /// next handle.
    pub fn handle_input(&mut self, frame: &FrameInput) -> (r: ClickOutcome)
        ensures
            final(self)@ == step(old(self)@, frame@),
            !clicked(old(self)@, frame@) <==> r == ClickOutcome::NoClick,
            clicked(old(self)@, frame@) && frame.cursor is None <==> r
                == ClickOutcome::CursorUnavailable,
            clicked(old(self)@, frame@) && frame.cursor is Some ==> r == (ClickOutcome::Placed {
                handle: old(self)@.points.len() as usize,
                point: point_at(frame.cursor->Some_0, old(self)@.current_level),
            }),
            frame.cursor is None ==> final(self)@.points == old(self)@.points,
    {
        let held0 = self.left_held;
        let mut held = held0;
        let mut pressed = false;
        let mut i: usize = 0;
        while i < frame.left.len()
            invariant
                i <= frame.left@.len(),
                held0 == old(self).left_held,
                held == held_after(held0, frame.left@.take(i as int)),
                pressed == pressed_during(held0, frame.left@.take(i as int)),
            decreases frame.left@.len() - i,
        {
            proof {
                assert(frame.left@.take(i + 1).drop_last() =~= frame.left@.take(i as int));
            }
            match frame.left[i] {
                ButtonEvent::Pressed => {
                    if !held {
                        pressed = true;
                    }
                    held = true;
                },
                ButtonEvent::Released => {
                    held = false;
                },
            }
            i = i + 1;
        }
        proof {
            assert(frame.left@.take(i as int) =~= frame.left@);
        }
        self.left_held = held;
        if !pressed {
            return ClickOutcome::NoClick;
        }
        match frame.cursor {
            None => ClickOutcome::CursorUnavailable,
            Some(c) => {
                let point = Point { position: to_world(c), level: self.current_level };
                let handle = self.points.len();
                self.points.push(point);
                ClickOutcome::Placed { handle, point }
            },
        }
    }

    /// The level new points are tagged with.
    pub fn current_level(&self) -> (r: usize)
        ensures
            r == self@.current_level,
    {
        self.current_level
    }

    /// Number of points placed so far; also the next handle.
    pub fn point_count(&self) -> (r: usize)
        ensures
            r == self@.points.len(),
    {
        self.points.len()
    }

    /// The point under handle `h`, if there is one.
    pub fn point(&self, h: Handle) -> (r: Option<Point>)
        ensures
            (h < self@.points.len()) == r is Some,
            h < self@.points.len() ==> r == Some(self@.points[h as int]),
    {
        if h < self.points.len() {
            Some(self.points[h])
        } else {
            None
        }
    }

    /// Number of lines: always zero, since nothing creates one.
    pub fn line_count(&self) -> (r: usize)
        ensures
            r == self@.lines.len(),
    {
        self.lines.len()
    }
}

} // verus!
