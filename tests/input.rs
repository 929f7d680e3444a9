use pixel_canvas::canvas::CanvasInfo;
use pixel_canvas::dpi::Scale;
use pixel_canvas::input::{Event, MouseState};

fn info(height: usize, num: u32, den: u32) -> CanvasInfo {
    CanvasInfo {
        width: 100,
        height,
        title: String::from("t"),
        hidpi: true,
        dpi: Scale::new(num, den).unwrap(),
        show_ms: false,
        render_on_change: false,
    }
}

#[test]
fn new_mouse_is_at_origin() {
    let m = MouseState::new();
    assert_eq!((m.x, m.y, m.virtual_x, m.virtual_y), (0, 0, 0, 0));
}

#[test]
fn pointer_move_scales_and_flips() {
    let mut m = MouseState::new();
    let changed = MouseState::handle_input(&info(100, 3, 2), &mut m, &Event::CursorMoved { x: 10, y: 20 });
    assert!(changed);
    assert_eq!((m.virtual_x, m.virtual_y), (10, 20));
    assert_eq!((m.x, m.y), (15, 120));
}

#[test]
fn pointer_move_rounds_halves_away_from_zero() {
    let mut m = MouseState::new();
    MouseState::handle_input(&info(4, 1, 2), &mut m, &Event::CursorMoved { x: 3, y: 1 });
    assert_eq!((m.x, m.y), (2, 2));
    MouseState::handle_input(&info(4, 1, 2), &mut m, &Event::CursorMoved { x: -3, y: 9 });
    assert_eq!((m.x, m.y), (-2, -3));
    MouseState::handle_input(&info(4, 1, 3), &mut m, &Event::CursorMoved { x: 4, y: 3 });
    assert_eq!((m.x, m.y), (1, 0));
}

#[test]
fn unit_scale_keeps_positions() {
    let mut m = MouseState::new();
    MouseState::handle_input(&info(480, 1, 1), &mut m, &Event::CursorMoved { x: 33, y: 80 });
    assert_eq!((m.x, m.y), (33, 400));
}

#[test]
fn other_events_change_nothing() {
    let mut m = MouseState::new();
    MouseState::handle_input(&info(10, 1, 1), &mut m, &Event::CursorMoved { x: 1, y: 2 });
    let before = m;
    for e in [
        Event::MouseInput { button: 1, pressed: true },
        Event::KeyboardInput { scancode: 30, pressed: false },
        Event::Resized { width: 3, height: 3 },
        Event::Other,
    ] {
        assert!(!MouseState::handle_input(&info(10, 1, 1), &mut m, &e));
        assert_eq!(m, before);
    }
}

#[test]
fn huge_positions_are_held_to_i32() {
    let mut m = MouseState::new();
    MouseState::handle_input(&info(10, 4, 1), &mut m, &Event::CursorMoved { x: i32::MAX, y: i32::MAX });
    assert_eq!((m.x, m.y), (i32::MAX, i32::MIN));
}

#[test]
fn scale_needs_a_positive_denominator() {
    assert!(Scale::new(1, 0).is_none());
    let s = Scale::new(5, 4).unwrap();
    assert_eq!((s.num(), s.den()), (5, 4));
    assert_eq!(s.scale_floor(10), Some(12));
    assert_eq!(Scale::new(u32::MAX, 1).unwrap().scale_floor(usize::MAX), None);
    assert_eq!(s.round(-2), -3);
    assert_eq!(Scale::one().round(-7), -7);
}
