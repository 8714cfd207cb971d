//! The OpenGL device.

use vstd::prelude::*;

verus! {

/// The graphics device that draws with OpenGL.
#[derive(Default)]
pub struct GfxDeviceOpengl;

} // verus!
