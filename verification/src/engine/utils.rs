//! Settings, paths and integer geometry.

pub mod app_settings;
pub mod bits;
pub mod file_system;
pub mod maths;
pub mod name_map;
pub mod rendering_bridge;
