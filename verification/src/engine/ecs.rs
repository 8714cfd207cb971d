//! Plain data of the entity layer.

pub mod components;
pub mod config;
pub mod resources;
pub mod systems;
