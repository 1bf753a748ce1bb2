//! What the renderer keeps of each kind of device object: sizes, layouts and
//! identities, the facts its decisions rest on.

pub mod buffers;
pub mod command_buffers;
pub mod framebuffers;
pub mod physical_device;
pub mod pipeline;
pub mod swapchain;
