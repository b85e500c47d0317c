//! Orchestration of a fixed four-stage GPU image pipeline
//! (demosaic, downsample, process, composite), kept apart from the GPU itself.
//!
//! Every function here works on plain values: it decides which resources a
//! frame needs, how they are described, how they are wired to the shader
//! stages, what bytes cross to the device and when resources must be rebuilt.
//! The caller owns the device and carries the decisions out.

pub mod binding;
pub mod bytes;
pub mod compute;
pub mod compute_shader;
pub mod descriptor;
pub mod frame;
pub mod ieee;
pub mod pipeline;
pub mod primitive;
pub mod program;
pub mod readback;
pub mod renderer;
pub mod test_shader;
pub mod uniforms;
pub mod util;
