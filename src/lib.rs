//! A lightweight 2D graphics runtime core: adapter selection, swapchain
//! negotiation, frame orchestration, staged buffer uploads, dynamic uniform
//! addressing and material pipeline caching, all stated over plain values so
//! that the decisions can be checked apart from any driver.
pub mod animator;
pub mod api;
pub mod audio;
pub mod bitmap;
pub mod buffer;
pub mod constants;
pub mod data;
pub mod device;
pub mod error;
pub mod font;
pub mod frame;
pub mod input;
pub mod instance;
pub mod manifest;
pub mod material;
pub mod options;
pub mod pipeline;
pub mod render_state;
pub mod shader;
pub mod swapchain;
pub mod task;
pub mod uniform;
