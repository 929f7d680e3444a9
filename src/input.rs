//! Input events, and a ready-made handler that tracks the mouse.
//!
//! Events are handed to the handler attached with `Canvas::input`, together
//! with the canvas information and the attached state.

use vstd::prelude::*;
use crate::canvas::{CanvasInfo, EventHandler};
use crate::dpi::{clamp_i32, round_div};

verus! {

/// An input event from the window, in the platform's own units.
#[derive(Clone, Copy, Debug, PartialEq, Eq, Structural)]
pub enum Event {
    /// The pointer moved to `(x, y)`, measured from the upper-left corner.
    CursorMoved { x: i32, y: i32 },
    /// A mouse button was pressed or released.
    MouseInput { button: u16, pressed: bool },
    /// A key was pressed or released.
    KeyboardInput { scancode: u32, pressed: bool },
    /// The window now wants a pixel buffer of this size.
    Resized { width: usize, height: usize },
    /// The window was asked to close.
    CloseRequested,
    /// Any other event.
    Other,
}

/// An input handler state that tracks the position of the mouse.
///
/// It provides physical and virtual coordinates.
/// - Virtual coordinates (`virtual_x` and `virtual_y`) are as reported by the
///   platform: from the upper-left corner, in unscaled units.
/// - Physical coordinates (`x` and `y`) match the pixels in the image: from
///   the lower-left corner, scaled by the DPI factor.
#[derive(Clone, Copy, Debug, PartialEq, Eq, Structural)]
pub struct MouseState {
    /// The x position from the lower-left corner, measured in physical pixels.
    pub x: i32,
    /// The y position from the lower-left corner, measured in physical pixels.
    pub y: i32,
    /// The x position from the upper-left corner as reported by the platform.
    pub virtual_x: i32,
    /// The y position from the upper-left corner as reported by the platform.
    pub virtual_y: i32,
}

/// The physical position of a pointer at platform position `(px, py)` in a
/// window of logical height `height`, at DPI factor `num / den`:
/// `x = round(px * d)` and `y = round((height - py) * d)`, each held to the
/// range of `i32`.
pub open spec fn physical_position(px: i32, py: i32, height: usize, num: u32, den: u32) -> (i32, i32) {
    (
        clamp_i32(round_div(px * num, den as int)),
        clamp_i32(round_div((height - py) * num, den as int)),
    )
}

/// The mouse state after `event`.
pub open spec fn mouse_after(info: CanvasInfo, mouse: MouseState, event: Event) -> MouseState {
    match event {
        Event::CursorMoved { x, y } => {
            let p = physical_position(x, y, info.height, info.dpi.spec_num(), info.dpi.spec_den());
            MouseState { x: p.0, y: p.1, virtual_x: x, virtual_y: y }
        },
        _ => mouse,
    }
}

impl MouseState {
    /// Create a MouseState. For use with the `state` method.
    pub fn new() -> (m: MouseState)
        ensures
            m == (MouseState { x: 0, y: 0, virtual_x: 0, virtual_y: 0 }),
    {
        MouseState { x: 0, y: 0, virtual_x: 0, virtual_y: 0 }
    }

    /// Handle input for the mouse: a pointer move updates both positions and
    /// reports a change; any other event changes nothing.
    pub fn handle_input(info: &CanvasInfo, mouse: &mut MouseState, event: &Event) -> (changed: bool)
        ensures
            *final(mouse) == mouse_after(*info, *old(mouse), *event),
            changed == (*event is CursorMoved),
    {
        match event {
            Event::CursorMoved { x, y } => {
                let x: i32 = *x;
                let y: i32 = *y;
                mouse.virtual_x = x;
                mouse.virtual_y = y;
                mouse.x = info.dpi.round(x as i128);
                mouse.y = info.dpi.round(info.height as i128 - y as i128);
                true
            },
            _ => false,
        }
    }
}

/// The handler that keeps a [`MouseState`] up to date. For use with the
/// `input` method, after `state(MouseState::new())`.
#[derive(Clone, Copy, Debug)]
pub struct MouseTracker;

impl EventHandler<MouseState> for MouseTracker {
    fn handle(&mut self, info: &CanvasInfo, state: &mut MouseState, event: &Event) -> (changed: bool)
        ensures
            *final(state) == mouse_after(*info, *old(state), *event),
            changed == (*event is CursorMoved),
    {
        MouseState::handle_input(info, state, event)
    }
}

} // verus!
