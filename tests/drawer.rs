use seven_guis::action_log::{ActionItem, ActionLog, ActionType};
use seven_guis::circles::{Canvas, CanvasEvent, MouseButton, Point, MAX_RADIUS, RADIUS};
use seven_guis::drawer::{AppCommand, AppData, CommandOutcome, INITIAL_RADIUS};

fn left(x: i32, y: i32) -> CanvasEvent {
    CanvasEvent::MouseDown { button: MouseButton::Left, pos: Point::new(x, y) }
}

#[test]
fn drawer_starts_empty() {
    let app = AppData::new();
    assert!(app.canvas.circles.is_empty());
    assert_eq!(app.canvas.selected, None);
    assert!(app.canvas.enabled);
    assert_eq!(app.radius, INITIAL_RADIUS);
    assert_eq!(INITIAL_RADIUS, 52);
    assert_eq!(app.window_count, 0);
    assert!(!app.undo_valid && !app.redo_valid);
    assert_eq!(app.action_log.max_actions(), 10);
}

#[test]
fn resize_needs_selection_and_one_window() {
    let mut app = AppData::new();
    app.window_added();
    let canvas = Canvas::new();
    canvas.event(&mut app.canvas, left(50, 50));
    let no_sel = app.command(AppCommand::Resize);
    assert_eq!(no_sel, CommandOutcome { propagate: true, open_resize_popup: false });
    canvas.event(&mut app.canvas, left(50, 50));
    let open = app.command(AppCommand::Resize);
    assert_eq!(open, CommandOutcome { propagate: false, open_resize_popup: true });
    app.window_added();
    assert_eq!(app.window_count, 2);
    assert!(!app.canvas.enabled);
    let again = app.command(AppCommand::Resize);
    assert!(!again.open_resize_popup);
}

#[test]
fn popup_blocks_canvas_until_closed() {
    let mut app = AppData::new();
    let canvas = Canvas::new();
    app.window_added();
    canvas.event(&mut app.canvas, left(50, 50));
    canvas.event(&mut app.canvas, left(50, 50));
    app.window_added();
    canvas.event(&mut app.canvas, left(300, 300));
    canvas.event(&mut app.canvas, left(50, 50));
    assert_eq!(app.canvas.circles.len(), 1);
    assert_eq!(app.canvas.selected, Some(0));
    app.window_removed();
    assert_eq!(app.window_count, 1);
    assert!(app.canvas.enabled);
    canvas.event(&mut app.canvas, left(300, 300));
    assert_eq!(app.canvas.circles.len(), 2);
}

#[test]
fn deselect_command_clears_selection() {
    let mut app = AppData::new();
    app.window_added();
    app.canvas.click(Point::new(50, 50));
    app.canvas.click(Point::new(50, 50));
    let r = app.command(AppCommand::Deselect);
    assert_eq!(r, CommandOutcome { propagate: false, open_resize_popup: false });
    assert_eq!(app.canvas.selected, None);
    assert_eq!(app.canvas.circles.len(), 1);
}

#[test]
fn undo_redo_taken_other_goes_on() {
    let mut app = AppData::new();
    assert!(!app.command(AppCommand::Undo).propagate);
    assert!(!app.command(AppCommand::Redo).propagate);
    assert!(app.command(AppCommand::Other).propagate);
}

#[test]
fn slider_sets_selected_radius_clamped() {
    let mut app = AppData::new();
    app.window_added();
    app.canvas.click(Point::new(0, 0));
    app.canvas.click(Point::new(300, 0));
    app.canvas.click(Point::new(300, 0));
    app.slider_moved(70);
    assert_eq!(app.radius, 70);
    assert_eq!(app.canvas.circles[1].radius, 70);
    assert_eq!(app.canvas.circles[0].radius, RADIUS);
    app.slider_moved(500);
    assert_eq!(app.canvas.circles[1].radius, MAX_RADIUS);
    assert_eq!(app.canvas.circles[0].radius, RADIUS);
}

#[test]
fn action_log_new_and_default() {
    let log = ActionLog::new(3);
    assert_eq!(log.max_actions(), 3);
    assert_eq!(log.position(), 0);
    assert_eq!(log.len(), 0);
    let d = ActionLog::default();
    assert_eq!(d.max_actions(), 10);
    assert_eq!(d.len(), 0);
}

#[test]
fn action_items() {
    let c = ActionItem::creation(4);
    assert_eq!(c.action_type, ActionType::Creation);
    assert_eq!(c.radius, None);
    assert_eq!(c.circle_id, 4);
    let a = ActionItem::adjustment(2, 40);
    assert_eq!(a.action_type, ActionType::Adjustment);
    assert_eq!(a.radius, Some(40));
    assert_eq!(a.circle_id, 2);
}
