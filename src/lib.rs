//! Interactive computer art with just a pixel buffer.
//!
//! A [`Canvas`] is configured by chained calls, given a state and an input
//! handler, and then driven by a frame loop that hands the state and an
//! [`Image`] to a render callback at a fixed cadence, or only after changes.
//! The library holds the buffer, the configuration and every decision of the
//! loop; the window and the graphics context are the caller's.

pub mod canvas;
pub mod color;
pub mod dpi;
pub mod image;
pub mod input;
pub mod math;
pub mod prelude;
pub mod scheduler;

pub use canvas::Canvas;
pub use color::{Blend, Color};
pub use image::Image;
