//! A verified model of an interactive demo panel: a freehand painting canvas
//! that accumulates polylines from pointer drags, a side-panel session state
//! (text label, bounded slider with an unbounded increment action, image
//! load/invert/remove controls), and an idempotent handle-to-texture registry
//! that degrades gracefully when a stale texture id is resolved.
//!
//! The engine and GUI toolkit that drive a real frame loop are kept outside:
//! each frame they hand this library plain input values (the pointer position
//! in canvas-local coordinates, which buttons fired) and take back plain
//! outputs (the polylines to draw, the texture to show, a spawn request).

pub mod painting;
pub mod panel;
pub mod registry;
