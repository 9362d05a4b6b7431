//! Progressive path-tracer core: camera state, the GPU uniform wire format,
//! and the sample-accumulation discipline that governs when rendering work
//! is restarted and how accumulated frames resolve to an image.

pub mod accumulation;
pub mod algebra;
pub mod camera;
pub mod render;
