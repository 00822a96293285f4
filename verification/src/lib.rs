//! A verified model of a single-quad render pipeline: fixed-point scalars,
//! vertex layout and geometry data, shader-stage interface matching, and the
//! per-frame render-pass state machine.

pub mod buffers;
pub mod color;
pub mod frame;
pub mod geometry;
pub mod layout;
pub mod pipeline;
pub mod renderer;
pub mod scalar;
pub mod shader;
