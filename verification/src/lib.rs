//! Verified core of a small 2D graphics layer: texture sizes, pixel
//! buffers and the row-padded layout used to move pixels between a
//! texture and CPU memory.

pub mod dimension;
pub mod gpu;
pub mod rgba;
pub mod usage;
pub mod error;
pub mod pixels;
pub mod layout;
pub mod pixels_mut;
pub mod command;
pub mod canvas;
pub mod graphics;
pub mod texture;
pub mod surface;
