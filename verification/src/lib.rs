//! A flat, contiguous, row-major two-dimensional container with
//! bounds-checked row access and constant-time exchange of the backing
//! buffers of two same-shaped containers, together with a double-buffered
//! five-point (Jacobi-style) stencil pass built on top of it.

pub mod grid;
pub mod stencil;
