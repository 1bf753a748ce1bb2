//! Frame synchronisation for a small instanced renderer.
//!
//! The crate decides, tick by tick, what a renderer has to do with its device:
//! when the swapchain and everything bound to it is rebuilt, which fences are
//! waited on before a frame slot's instance data is overwritten, which command
//! sequence is submitted and after what. It issues no device call itself: the
//! caller carries out the actions it is handed and reports what came of them.

pub mod input;
pub mod keys;
pub mod pacing;
pub mod render;
pub mod scene;
pub mod vulkano_graphics;

pub use keys::KeyState;
pub use keys::KeyState::{Pressed, Released};
pub use keys::Keys;
pub use scene::Scene;
