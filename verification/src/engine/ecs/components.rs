//! Components that hold no floating-point data.

use vstd::prelude::*;

verus! {

/// How a camera projects the scene.
#[derive(Debug, Default, Clone, Copy, PartialEq, Eq)]
pub enum Projection {
    #[default]
    Orthographic,
    Perspective,
}

/// Ties an entity to its command in the renderer.
#[derive(Debug, Default, Clone, Copy)]
pub struct RendererHandleComponent {
    pub handle: usize,
}

/// Marks an entity that is drawn whether or not the camera sees it.
#[derive(Debug, Default, Clone, Copy)]
pub struct NoCulling;

} // verus!
