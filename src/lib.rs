//! Incremental render engine of an interactive Mandelbrot explorer.
//!
//! The library keeps the view state (zoom, viewport size, dirty flags), the
//! cache of escape-time results, and turns that cache into an RGBA8 frame.
//! Escape-time results are held as iteration counts: the escape-time ratio of
//! a pixel is its count divided by `max_iterations`, so it lies in `[0, 1]`.
use vstd::prelude::*;

pub mod colour;
pub mod engine;
pub mod escape;
pub mod laws;

verus! {

} // verus!
