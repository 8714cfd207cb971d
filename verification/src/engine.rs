//! The engine's rules that need neither a window nor a graphics driver.

pub mod ecs;
pub mod inputs;
pub mod logging;
pub mod rendering;
pub mod utils;
