use bezier_sketch::drawing::{ButtonEvent, ClickOutcome, DrawingState, FrameInput, Point};
use bezier_sketch::geometry::{to_world, CursorPos, WorldPos};
use bezier_sketch::presentation::RenderRequest;

fn cursor(x: f32, y: f32) -> CursorPos {
    CursorPos { x: x.to_bits(), y: y.to_bits() }
}

fn world(x: f32, y: f32) -> WorldPos {
    WorldPos { x: x.to_bits(), y: y.to_bits(), z: 0.0f32.to_bits() }
}

fn click_at(x: f32, y: f32) -> FrameInput {
    FrameInput { left: vec![ButtonEvent::Pressed, ButtonEvent::Released], cursor: Some(cursor(x, y)) }
}

fn idle(c: Option<CursorPos>) -> FrameInput {
    FrameInput { left: vec![], cursor: c }
}

#[test]
fn starts_empty_at_level_zero() {
    let s = DrawingState::new();
    assert_eq!(s.point_count(), 0);
    assert_eq!(s.line_count(), 0);
    assert_eq!(s.current_level(), 0);
    assert_eq!(s.point(0), None);
    assert!(s.render_requests().is_empty());
}

#[test]
fn click_places_point_at_cursor() {
    let mut s = DrawingState::new();
    let r = s.handle_input(&click_at(100.0, 200.0));
    let p = Point { position: world(100.0, 200.0), level: 0 };
    assert_eq!(r, ClickOutcome::Placed { handle: 0, point: p });
    assert_eq!(s.point(0), Some(p));
    assert_eq!(s.point_count(), 1);
}

#[test]
fn fractional_coordinates_are_kept_exactly() {
    let mut s = DrawingState::new();
    s.handle_input(&click_at(12.75, 0.5));
    assert_eq!(s.point(0).unwrap().position, world(12.75, 0.5));
}

#[test]
fn to_world_sets_depth_zero() {
    let w = to_world(cursor(3.0, 4.0));
    assert_eq!(w, world(3.0, 4.0));
    assert_eq!(f32::from_bits(w.z), 0.0);
    assert_ne!(w.x, cursor(4.0, 3.0).x);
}

#[test]
fn held_button_places_one_point() {
    let mut s = DrawingState::new();
    let first = FrameInput { left: vec![ButtonEvent::Pressed], cursor: Some(cursor(10.0, 20.0)) };
    assert!(matches!(s.handle_input(&first), ClickOutcome::Placed { handle: 0, .. }));
    for _ in 0..5 {
        assert_eq!(s.handle_input(&idle(Some(cursor(30.0, 40.0)))), ClickOutcome::NoClick);
    }
    let repeat = FrameInput { left: vec![ButtonEvent::Pressed], cursor: Some(cursor(30.0, 40.0)) };
    assert_eq!(s.handle_input(&repeat), ClickOutcome::NoClick);
    assert_eq!(s.point_count(), 1);
    assert_eq!(s.point(0).unwrap().position, world(10.0, 20.0));
}

#[test]
fn press_after_release_places_again() {
    let mut s = DrawingState::new();
    let down = FrameInput { left: vec![ButtonEvent::Pressed], cursor: Some(cursor(1.0, 1.0)) };
    let up = FrameInput { left: vec![ButtonEvent::Released], cursor: Some(cursor(1.0, 1.0)) };
    s.handle_input(&down);
    assert_eq!(s.handle_input(&up), ClickOutcome::NoClick);
    assert!(matches!(s.handle_input(&down), ClickOutcome::Placed { handle: 1, .. }));
    assert_eq!(s.point_count(), 2);
}

#[test]
fn release_alone_is_no_click() {
    let mut s = DrawingState::new();
    let up = FrameInput { left: vec![ButtonEvent::Released], cursor: Some(cursor(1.0, 1.0)) };
    assert_eq!(s.handle_input(&up), ClickOutcome::NoClick);
    assert_eq!(s.point_count(), 0);
}

#[test]
fn two_presses_in_one_frame_place_one_point() {
    let mut s = DrawingState::new();
    let f = FrameInput {
        left: vec![ButtonEvent::Pressed, ButtonEvent::Released, ButtonEvent::Pressed],
        cursor: Some(cursor(5.0, 6.0)),
    };
    assert!(matches!(s.handle_input(&f), ClickOutcome::Placed { handle: 0, .. }));
    assert_eq!(s.point_count(), 1);
}

#[test]
fn click_without_cursor_places_nothing() {
    let mut s = DrawingState::new();
    s.handle_input(&click_at(1.0, 2.0));
    let f = FrameInput { left: vec![ButtonEvent::Pressed, ButtonEvent::Released], cursor: None };
    assert_eq!(s.handle_input(&f), ClickOutcome::CursorUnavailable);
    assert_eq!(s.point_count(), 1);
    assert_eq!(s.point(0).unwrap().position, world(1.0, 2.0));
    assert_eq!(s.handle_input(&click_at(3.0, 4.0)), ClickOutcome::Placed {
        handle: 1,
        point: Point { position: world(3.0, 4.0), level: 0 },
    });
}

#[test]
fn points_are_tagged_with_current_level() {
    let mut s = DrawingState::new();
    for i in 0..3 {
        s.handle_input(&click_at(i as f32, 0.0));
    }
    for h in 0..3 {
        assert_eq!(s.point(h).unwrap().level, s.current_level());
        assert_eq!(s.point(h).unwrap().level, 0);
    }
}

#[test]
fn clicks_accumulate_with_unique_handles() {
    let mut s = DrawingState::new();
    let spots = [(1.0, 2.0), (30.0, 40.0), (500.5, 6.0), (0.0, 0.0)];
    let mut handles = Vec::new();
    for (x, y) in spots {
        match s.handle_input(&click_at(x, y)) {
            ClickOutcome::Placed { handle, .. } => handles.push(handle),
            other => panic!("unexpected {:?}", other),
        }
    }
    assert_eq!(handles, vec![0, 1, 2, 3]);
    assert_eq!(s.point_count(), 4);
    let reqs = s.render_requests();
    assert_eq!(reqs.len(), 4);
    for (i, (x, y)) in spots.iter().enumerate() {
        assert_eq!(reqs[i], RenderRequest { handle: i, translation: world(*x, *y) });
    }
}

#[test]
fn render_requests_are_stable() {
    let mut s = DrawingState::new();
    s.handle_input(&click_at(7.0, 8.0));
    s.handle_input(&click_at(9.0, 10.0));
    let once = s.render_requests();
    let twice = s.render_requests();
    assert_eq!(once, twice);
    assert_eq!(once[1].translation, world(9.0, 10.0));
}

#[test]
fn same_spot_twice_gives_two_overlapping_points() {
    let mut s = DrawingState::new();
    s.handle_input(&click_at(50.0, 50.0));
    s.handle_input(&click_at(50.0, 50.0));
    assert_eq!(s.point_count(), 2);
    let expected = Point { position: world(50.0, 50.0), level: 0 };
    assert_eq!(s.point(0), Some(expected));
    assert_eq!(s.point(1), Some(expected));
    let reqs = s.render_requests();
    assert_eq!(reqs.len(), 2);
    assert_ne!(reqs[0].handle, reqs[1].handle);
    assert_eq!(reqs[0].translation, reqs[1].translation);
    assert_eq!(reqs[0].translation, world(50.0, 50.0));
}
