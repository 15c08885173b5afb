//! The parts of the renderer, one module for each kind of GPU object.

pub(crate) mod bits;
pub mod command_pool;
pub mod device;
pub mod fence;
pub mod image;
pub mod instance;
pub(crate) mod names;
pub mod pipeline;
pub mod resources;
pub mod semaphore;
pub mod surface;
pub mod swapchain;
