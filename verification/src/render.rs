//! Render-side logic: pipeline states, graph dispatch and the tracer systems.
pub mod node;
pub mod pipeline;
pub mod resources;
pub mod tracer;
