//! The raster side of a small ray caster.
//!
//! A render shades one ray per pixel and stores the colour that comes back.
//! This crate holds the part of that work that is exact: how a colour level
//! becomes a byte, which paint a shading policy asks for, how tall an image
//! of a given width is, and the driver that visits every pixel of the grid
//! once, in row-major order.

pub mod color;
pub mod grid;
pub mod render;
pub mod shading;
