//! Re-exported types and traits, meant to be imported together.

pub use crate::{
    canvas::Canvas,
    color::{Blend, Color},
    image::{Image, RC, XY},
    math::{Remap, Restrict},
};
