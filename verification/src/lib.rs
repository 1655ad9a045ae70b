//! Core logic of a live screen-capture viewer: per-session render state,
//! session lifecycle, crop/mirror geometry, overlay mesh composition, draw
//! planning, and the single-shot snapshot encoding path.
//!
//! The platform capture source and the GPU are driven by a host process; this
//! crate holds the decisions that pipeline makes (what to reallocate, when to
//! resize, what to draw, how to react to a failed present) as verified
//! functions over plain data.

pub mod context;
pub mod errors;
pub mod geom;
pub mod mesh;
pub mod registry;
pub mod renderer;
pub mod session;
pub mod snapshot;
pub mod ui;
