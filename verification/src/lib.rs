//! The discrete core of an interactive Mandelbrot viewer.
//!
//! The crate holds what the viewer decides without touching a device or a
//! window: what each input event means, when a frame has to be drawn again,
//! how the iteration budget follows the zoom depth, how samples and pixels
//! are laid out in memory.

pub mod budget;
pub mod grid;
pub mod raster;
pub mod dispatch;
pub mod input;
pub mod frame_loop;
pub mod frame_laws;
