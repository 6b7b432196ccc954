//! Video rendering: colour pipelines, output selection and GPU backends.

pub mod color_laws;
pub mod context;
pub mod d3d11;
pub mod danmaku;
pub mod drawing_laws;
pub mod draws;
pub mod frame;
pub mod layout;
pub mod output;
pub mod overlay;
pub mod pipeline;
pub mod presentation;
pub mod quad;
pub mod stats;
pub mod surface;
pub mod wgpu;
