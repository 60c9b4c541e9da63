use bowdraw::drawing::{squared_distance, BowDraw, DrawState, MotionCue, Overlay, Point, Release};

fn p(x: i32, y: i32) -> Point {
    Point { x, y }
}

#[test]
fn squared_distance_is_exact() {
    assert_eq!(squared_distance(p(0, 0), p(3, 4)), 25);
    let far = squared_distance(p(i32::MIN, i32::MIN), p(i32::MAX, i32::MAX));
    let d: i128 = (i32::MAX as i128) - (i32::MIN as i128);
    assert_eq!(far, 2 * d * d);
}

#[test]
fn new_gesture_is_idle() {
    let b = BowDraw::new();
    assert_eq!(b.draw_state(), DrawState::NotHolding);
    assert!(b.mouse_pts().is_empty());
    assert_eq!(b.overlay(), Overlay::Hidden);
}

#[test]
fn motion_while_not_holding_records_nothing() {
    let mut b = BowDraw::new();
    assert_eq!(b.motion(p(5, 5)), MotionCue::Silent);
    assert!(b.mouse_pts().is_empty());
}

#[test]
fn full_shot() {
    let origin = p(0, 0);
    let mut b = BowDraw::new();
    b.press(origin);
    assert_eq!(b.draw_state(), DrawState::Nocking(origin, false));
    assert_eq!(b.motion(p(10, 0)), MotionCue::Silent);
    assert_eq!(b.motion(p(60, 0)), MotionCue::Silent);
    assert_eq!(b.overlay(), Overlay::Trail);
    // the last point is 60 away: the arrow is nocked
    assert_eq!(b.motion(p(80, 0)), MotionCue::Nock);
    assert_eq!(b.draw_state(), DrawState::Nocking(origin, true));
    // coming back toward the origin: drawing from the turnaround (80, 0)
    assert_eq!(b.motion(p(70, 0)), MotionCue::Silent);
    assert_eq!(b.draw_state(), DrawState::Drawing(origin, 2));
    assert_eq!(b.overlay(), Overlay::Split(2));
    assert_eq!(b.motion(p(40, 0)), MotionCue::Draw { origin, nock: p(80, 0) });
    assert_eq!(b.mouse_pts().len(), 5);
    assert_eq!(b.draw_point_abs(2), Some(p(80, 0)));
    assert_eq!(b.draw_point_abs(5), None);
    let shot = b.release();
    assert_eq!(shot, Some(Release { origin, nock: p(80, 0), turnaround: 2, point_count: 5 }));
    assert_eq!(b.draw_state(), DrawState::NotHolding);
    assert!(b.mouse_pts().is_empty());
}

#[test]
fn nock_and_draw_in_one_move() {
    let origin = p(0, 0);
    let mut b = BowDraw::new();
    b.press(origin);
    b.motion(p(0, 40));
    b.motion(p(0, 51));
    // 51 away and the new point is closer: nocked and drawing at once
    assert_eq!(b.motion(p(0, 30)), MotionCue::Nock);
    assert_eq!(b.draw_state(), DrawState::Drawing(origin, 1));
}

#[test]
fn exactly_nock_distance_does_not_nock() {
    let origin = p(0, 0);
    let mut b = BowDraw::new();
    b.press(origin);
    b.motion(p(30, 40));
    assert_eq!(b.motion(p(0, 0)), MotionCue::Silent);
    assert_eq!(b.draw_state(), DrawState::Nocking(origin, false));
}

#[test]
fn release_right_after_turning_shoots() {
    let origin = p(0, 0);
    let mut b = BowDraw::new();
    b.press(origin);
    b.motion(p(100, 0));
    b.motion(p(90, 0));
    assert_eq!(b.draw_state(), DrawState::Drawing(origin, 0));
    assert_eq!(b.release(), Some(Release { origin, nock: p(100, 0), turnaround: 0, point_count: 2 }));
    assert_eq!(b.draw_state(), DrawState::NotHolding);
    assert!(b.mouse_pts().is_empty());
}

#[test]
fn release_while_nocking_shoots_nothing() {
    let mut b = BowDraw::new();
    b.press(p(1, 1));
    b.motion(p(2, 2));
    assert_eq!(b.release(), None);
    assert!(b.mouse_pts().is_empty());
}

#[test]
fn press_keeps_trail() {
    let mut b = BowDraw::new();
    b.press(p(0, 0));
    b.motion(p(1, 0));
    b.press(p(5, 5));
    assert_eq!(b.draw_state(), DrawState::Nocking(p(5, 5), false));
    assert_eq!(b.mouse_pts().len(), 1);
}
