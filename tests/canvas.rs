use seven_guis::circles::{
    distance_squared, Canvas, CanvasAction, CanvasData, CanvasEvent, Circle, Key, MouseButton,
    Point, MAX_RADIUS, MIN_RADIUS, RADIUS,
};

fn left(x: i32, y: i32) -> CanvasEvent {
    CanvasEvent::MouseDown { button: MouseButton::Left, pos: Point::new(x, y) }
}

#[test]
fn scenario_click_select_then_create() {
    let canvas = Canvas::new();
    let mut data = CanvasData::new();
    assert_eq!(canvas.event(&mut data, left(50, 50)), CanvasAction::Repaint);
    assert_eq!(data.circles, vec![Circle { pos: Point::new(50, 50), index: 0, radius: RADIUS }]);
    assert_eq!(data.selected, None);
    canvas.event(&mut data, left(50, 50));
    assert_eq!(data.circles.len(), 1);
    assert_eq!(data.selected, Some(0));
    canvas.event(&mut data, left(200, 200));
    assert_eq!(data.circles.len(), 2);
    assert_eq!(data.circles[1], Circle { pos: Point::new(200, 200), index: 1, radius: RADIUS });
    assert_eq!(data.selected, None);
}

#[test]
fn clicks_outside_create_numbered_circles() {
    let mut data = CanvasData::new();
    let points = [(0, 0), (100, 0), (0, 100), (100, 100)];
    for (x, y) in points {
        data.click(Point::new(x, y));
    }
    assert_eq!(data.circles.len(), 4);
    for (k, (x, y)) in points.iter().enumerate() {
        assert_eq!(data.circles[k].index, k);
        assert_eq!(data.circles[k].pos, Point::new(*x, *y));
        assert_eq!(data.circles[k].radius, RADIUS);
    }
    assert_eq!(data.selected, None);
}

#[test]
fn click_toggles_selection() {
    let mut data = CanvasData::new();
    data.click(Point::new(10, 10));
    data.click(Point::new(300, 300));
    data.click(Point::new(305, 298));
    assert_eq!(data.selected, Some(1));
    data.click(Point::new(305, 298));
    assert_eq!(data.selected, None);
    assert_eq!(data.circles.len(), 2);
}

#[test]
fn click_selects_nearest_of_overlapping() {
    let mut data = CanvasData::new();
    data.click(Point::new(100, 100));
    data.click(Point::new(140, 100));
    assert_eq!(data.circles.len(), 2);
    assert_eq!(data.hit_test(Point::new(122, 100)), Some(1));
    assert_eq!(data.hit_test(Point::new(118, 100)), Some(0));
    data.click(Point::new(122, 100));
    assert_eq!(data.selected, Some(1));
    data.click(Point::new(118, 100));
    assert_eq!(data.selected, Some(0));
    assert_eq!(data.circles.len(), 2);
}

#[test]
fn equidistant_click_picks_first_circle() {
    let mut data = CanvasData::new();
    data.click(Point::new(100, 100));
    data.click(Point::new(140, 100));
    assert_eq!(data.hit_test(Point::new(120, 100)), Some(0));
}

#[test]
fn hit_test_boundary_is_outside() {
    let mut data = CanvasData::new();
    data.click(Point::new(0, 0));
    assert_eq!(data.hit_test(Point::new(24, 0)), Some(0));
    assert_eq!(data.hit_test(Point::new(25, 0)), None);
    assert_eq!(data.hit_test(Point::new(15, 20)), None);
    assert_eq!(data.hit_test(Point::new(15, 19)), Some(0));
}

#[test]
fn escape_clears_selection() {
    let canvas = Canvas::new();
    let mut data = CanvasData::new();
    let escape = CanvasEvent::KeyDown { key: Key::Escape };
    canvas.event(&mut data, escape);
    assert_eq!(data.selected, None);
    canvas.event(&mut data, left(50, 50));
    canvas.event(&mut data, left(50, 50));
    assert_eq!(data.selected, Some(0));
    assert_eq!(canvas.event(&mut data, escape), CanvasAction::Nothing);
    assert_eq!(data.selected, None);
    assert_eq!(data.circles.len(), 1);
}

#[test]
fn other_key_keeps_selection() {
    let canvas = Canvas::new();
    let mut data = CanvasData::new();
    canvas.event(&mut data, left(50, 50));
    canvas.event(&mut data, left(50, 50));
    canvas.event(&mut data, CanvasEvent::KeyDown { key: Key::Other });
    assert_eq!(data.selected, Some(0));
}

#[test]
fn right_click_asks_for_context_menu() {
    let canvas = Canvas::new();
    let mut data = CanvasData::new();
    let event = CanvasEvent::MouseDown { button: MouseButton::Right, pos: Point::new(7, 8) };
    assert_eq!(canvas.event(&mut data, event), CanvasAction::ContextMenu(Point::new(7, 8)));
    assert!(data.circles.is_empty());
}

#[test]
fn disabled_canvas_ignores_events() {
    let canvas = Canvas::new();
    let mut data = CanvasData::new();
    canvas.event(&mut data, left(50, 50));
    canvas.event(&mut data, left(50, 50));
    data.enabled = false;
    assert_eq!(canvas.event(&mut data, left(300, 300)), CanvasAction::Nothing);
    assert_eq!(canvas.event(&mut data, left(50, 50)), CanvasAction::Nothing);
    canvas.event(&mut data, CanvasEvent::KeyDown { key: Key::Escape });
    assert_eq!(data.circles.len(), 1);
    assert_eq!(data.selected, Some(0));
}

#[test]
fn update_radius_changes_only_selected() {
    let mut data = CanvasData::new();
    data.click(Point::new(0, 0));
    data.click(Point::new(200, 0));
    data.click(Point::new(200, 0));
    assert_eq!(data.selected, Some(1));
    data.update_radius(60);
    assert_eq!(data.circles[1].radius, 60);
    assert_eq!(data.circles[1].pos, Point::new(200, 0));
    assert_eq!(data.circles[0].radius, RADIUS);
    data.update_radius(1000);
    assert_eq!(data.circles[1].radius, MAX_RADIUS);
    data.update_radius(0);
    assert_eq!(data.circles[1].radius, MIN_RADIUS);
    assert_eq!(data.circles[0].radius, RADIUS);
}

#[test]
fn update_radius_without_selection_changes_nothing() {
    let mut data = CanvasData::new();
    data.click(Point::new(0, 0));
    data.update_radius(80);
    assert_eq!(data.circles[0].radius, RADIUS);
}

#[test]
fn update_specific_clamps() {
    let mut data = CanvasData::new();
    data.click(Point::new(0, 0));
    data.update_specific(3, 0);
    assert_eq!(data.circles[0].radius, MIN_RADIUS);
    data.update_specific(42, 0);
    assert_eq!(data.circles[0].radius, 42);
}

#[test]
fn distance_squared_is_exact() {
    assert_eq!(distance_squared(Point::new(0, 0), Point::new(3, 4)), 25);
    assert_eq!(
        distance_squared(Point::new(i32::MIN, i32::MIN), Point::new(i32::MAX, i32::MAX)),
        2 * (u32::MAX as u128) * (u32::MAX as u128)
    );
}

#[test]
fn circle_new_has_default_radius() {
    let c = Circle::new(Point::new(1, 2), 7);
    assert_eq!(c, Circle { pos: Point::new(1, 2), index: 7, radius: 25 });
}
