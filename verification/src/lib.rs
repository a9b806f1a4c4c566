//! Frame-rendering core of a small real-time 3D engine.
//!
//! The crate owns the decisions of a forward renderer with several frames in
//! flight: which GPU to use, how the presentation chain is configured, how
//! mesh and texture data reach device memory, and the per-frame state machine
//! that acquires, records, submits and presents.

pub mod api;
pub mod application;
pub mod decode;
pub mod device;
pub mod extent;
pub mod frame;
pub mod input;
pub mod mipmap;
pub mod pipeline;
pub mod recording;
pub mod recording_api;
pub mod render_targets;
pub mod renderer;
pub mod resource_manager;
pub mod resources;
pub mod sampler;
pub mod scene;
pub mod surface;
pub mod swapchain;
pub mod ubo;
pub mod upload;
pub mod vertex;
pub mod window;
