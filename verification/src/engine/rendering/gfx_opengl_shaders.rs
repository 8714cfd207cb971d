//! The names under which the OpenGL shader interface looks up uniforms.

use vstd::prelude::*;

verus! {

/// The shader interface of the OpenGL device.
#[derive(Default)]
pub struct GfxOpenGLShaderApi;

} // verus!
