//! Verified core of a time-driven 2D visualization surface: the mode/pan/zoom
//! state machine, the per-frame dispatch, and the three procedural scenes
//! (logarithmic spiral, H-tree fractal, Mandelbrot escape-time field), all
//! modelled over fixed-point integers so that every rule can be proved.
//!
//! The host layer around this library owns the drawing surface: it forwards
//! input events to [`session::Session`], runs [`session::Session::frame`]
//! once per display refresh, and draws what the scene modules return.

pub mod fixed;
pub mod htree;
pub mod mandelbrot;
pub mod session;
pub mod spiral;
pub mod viewport;
