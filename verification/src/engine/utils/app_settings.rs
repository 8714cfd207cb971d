//! The window that an application asks for.

use vstd::prelude::*;

verus! {

#[derive(Debug, Copy, Clone, PartialEq, Eq, Structural)]
pub enum WindowMode {
    Windowed,
    FullScreen,
}

#[derive(Debug, Copy, Clone)]
pub struct WindowSettings {
    pub width: u32,
    pub height: u32,
    pub mode: WindowMode,
}

impl WindowSettings {
    /// The window of an application that asks for none: 800 by 600, windowed.
    pub fn default_window() -> (settings: WindowSettings)
        ensures
            settings.width == 800,
            settings.height == 600,
            settings.mode == WindowMode::Windowed,
    {
        WindowSettings { width: 800, height: 600, mode: WindowMode::Windowed }
    }
}

} // verus!
