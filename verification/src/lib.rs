//! Planning and sequencing for a small Vulkan renderer.
//!
//! The crate decides what a double-buffered present loop asks of the GPU and in
//! which order: how the swapchain is negotiated, what the fixed-function pipeline
//! holds, which commands each buffer records, how a frame moves from fence wait to
//! present, and in which order everything is destroyed again. It never talks to
//! the driver itself; a host program performs each request and reports back.

pub mod application;
pub mod engine;
pub mod frame;
pub mod shader;
