//! Core of a terminal ray tracer: glyph quantization, the nearest-hit
//! reduction, bounce-loop control, and in-order frame assembly.
//!
//! The floating-point ray math itself and all terminal I/O live outside this
//! library; these modules hold the parts of the engine whose behaviour can be
//! stated and proved over plain values.

pub mod bounce;
pub mod frame;
pub mod glyph;
pub mod reduce;
