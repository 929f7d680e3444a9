use pixel_canvas::canvas::{Canvas, EventHandler, CanvasInfo, NoInput};
use pixel_canvas::color::Color;
use pixel_canvas::dpi::Scale;
use pixel_canvas::image::{Image, RC};
use pixel_canvas::input::{Event, MouseState, MouseTracker};

#[test]
fn new_canvas_defaults() {
    let c = Canvas::new(4, 3);
    let info = c.info();
    assert_eq!((info.width, info.height), (4, 3));
    assert_eq!(info.title, "Canvas");
    assert!(!info.hidpi && !info.show_ms && !info.render_on_change);
    assert_eq!((info.dpi.num(), info.dpi.den()), (1, 1));
    assert_eq!((c.image().width(), c.image().height()), (4, 3));
}

#[test]
fn builder_sets_each_option() {
    let c = Canvas::new(8, 8).title("Tile").hidpi(true).show_ms(true).render_on_change(true);
    let info = c.info();
    assert_eq!(info.title, "Tile");
    assert!(info.hidpi && info.show_ms && info.render_on_change);
    assert!(c.scheduler().render_on_change);
}

#[test]
fn open_scales_the_image_in_hidpi_mode() {
    let mut c = Canvas::new(10, 5).hidpi(true);
    assert!(c.open(Scale::new(2, 1).unwrap(), 0));
    assert_eq!((c.image().width(), c.image().height()), (20, 10));
    assert_eq!(c.info().dpi.num(), 2);
    let mut plain = Canvas::new(10, 5);
    assert!(plain.open(Scale::new(2, 1).unwrap(), 0));
    assert_eq!((plain.image().width(), plain.image().height()), (10, 5));
    let mut frac = Canvas::new(10, 5).hidpi(true);
    assert!(frac.open(Scale::new(5, 4).unwrap(), 0));
    assert_eq!((frac.image().width(), frac.image().height()), (12, 6));
}

#[test]
fn open_refuses_a_buffer_too_large() {
    let mut c = Canvas::new(1 << 20, 1 << 10).hidpi(true);
    assert!(!c.open(Scale::new(1 << 20, 1).unwrap(), 0));
    assert_eq!((c.image().width(), c.image().height()), (1 << 20, 1 << 10));
    assert_eq!(c.info().dpi.num(), 1);
}

#[test]
fn tick_runs_the_callback() {
    let mut c = Canvas::new(2, 2).state(0u32);
    assert!(c.open(Scale::one(), 100));
    let mut draw = |n: &mut u32, img: &mut Image| {
        *n += 1;
        img.fill(Color::rgb(9, 9, 9));
    };
    let f = c.tick(100, &mut draw);
    assert!(f.rendered && !f.resized);
    assert_eq!(f.wait_until_ns, 100 + 16_666_667);
    assert_eq!(*c.current_state(), 1);
    assert_eq!(c.image()[RC(1, 1)], Color::rgb(9, 9, 9));
    c.tick(200, &mut draw);
    assert_eq!(*c.current_state(), 2);
}

#[test]
fn tick_reports_a_new_image_size() {
    let mut c = Canvas::new(2, 2);
    let mut grow = |_: &mut (), img: &mut Image| *img = Image::new(3, 1);
    let f = c.tick(0, &mut grow);
    assert!(f.rendered && f.resized);
    let f = c.tick(0, &mut grow);
    assert!(f.rendered && !f.resized);
}

#[test]
fn render_on_change_follows_the_mouse() {
    let mut c = Canvas::new(10, 10).render_on_change(true).state(MouseState::new()).input(MouseTracker);
    let mut count = 0u32;
    let mut draw = |_: &mut MouseState, _: &mut Image| count += 1;
    for i in 0..3 {
        c.tick(i, &mut draw);
    }
    assert!(c.handle_event(&Event::Other));
    c.tick(3, &mut draw);
    assert!(c.handle_event(&Event::CursorMoved { x: 2, y: 3 }));
    c.tick(4, &mut draw);
    c.tick(5, &mut draw);
    drop(draw);
    assert_eq!(count, 2);
    let m = c.current_state();
    assert_eq!((m.x, m.y, m.virtual_x, m.virtual_y), (2, 7, 2, 3));
}

#[test]
fn state_resets_the_handler() {
    let c = Canvas::new(3, 3).state(MouseState::new()).input(MouseTracker).state(MouseState::new());
    let mut c = c.render_on_change(true);
    let mut count = 0u32;
    let mut draw = |_: &mut MouseState, _: &mut Image| count += 1;
    c.tick(0, &mut draw);
    c.handle_event(&Event::CursorMoved { x: 1, y: 1 });
    c.tick(1, &mut draw);
    drop(draw);
    assert_eq!(count, 1);
    assert_eq!(c.current_state().virtual_x, 0);
}

struct Counter(u32);

impl EventHandler<u32> for Counter {
    fn handle(&mut self, _info: &CanvasInfo, state: &mut u32, _event: &Event) -> bool {
        self.0 += 1;
        *state = self.0;
        false
    }
}

#[test]
fn custom_handler_sees_every_event() {
    let mut c = Canvas::new(1, 1).state(0u32).input(Counter(0));
    c.handle_event(&Event::Other);
    c.handle_event(&Event::KeyboardInput { scancode: 1, pressed: true });
    assert_eq!(*c.current_state(), 2);
}

#[test]
fn close_ends_the_loop() {
    let mut c = Canvas::new(2, 2);
    assert!(!c.handle_event(&Event::CloseRequested));
    assert!(c.scheduler().closed);
    let mut draw = |_: &mut (), _: &mut Image| panic!("no render after close");
    assert!(!c.tick(0, &mut draw).rendered);
}

#[test]
fn resize_reallocates_and_redraws() {
    let mut c = Canvas::new(2, 2).render_on_change(true);
    let mut draw = |_: &mut (), _: &mut Image| {};
    c.tick(0, &mut draw);
    assert!(c.handle_event(&Event::Resized { width: 5, height: 4 }));
    assert_eq!((c.image().width(), c.image().height()), (5, 4));
    let f = c.tick(1, &mut draw);
    assert!(f.rendered && f.resized);
    c.handle_event(&Event::Resized { width: 5, height: 4 });
    assert!(!c.tick(2, &mut draw).rendered);
}

#[test]
fn frame_title_shows_the_time() {
    let c = Canvas::new(1, 1).title("Art").show_ms(true);
    assert_eq!(c.frame_title(7), Some(String::from("Art -   7ms")));
    assert_eq!(c.frame_title(1234), Some(String::from("Art - 1234ms")));
    assert_eq!(Canvas::new(1, 1).frame_title(7), None);
}

#[test]
fn no_input_reports_no_change() {
    let mut h = NoInput;
    let info = Canvas::new(1, 1);
    let mut s = 5u8;
    assert!(!h.handle(info.info(), &mut s, &Event::CursorMoved { x: 0, y: 0 }));
    assert_eq!(s, 5);
}
