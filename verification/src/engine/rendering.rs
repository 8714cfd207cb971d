//! What the renderer keeps and decides apart from drawing.

pub mod components;
pub mod debug;
pub mod gfx_device;
pub mod gfx_opengl_shaders;
pub mod opengl;
pub mod renderer_helpers;
pub mod renderer_storage;
pub mod shaders;
