//! The model of the renderer's device objects and the loop that schedules
//! frames over them.

pub mod buffer_container;
pub mod models;
pub mod render_loop;
pub mod renderable_scene;
pub mod renderer;
pub mod shaders;
pub mod swapchain_container;
pub mod vulkano_objects;
