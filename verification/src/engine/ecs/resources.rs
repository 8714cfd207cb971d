//! What culling found out about an entity.

use vstd::prelude::*;

verus! {

/// Whether the camera sees an entity, or the question is not asked of it.
#[derive(Copy, Clone, PartialEq, Eq, Structural)]
pub enum CulledState {
    Visible,
    Hidden,
    ByPass,
}

impl CulledState {
    /// An entity is visible if the camera sees it or if it bypasses culling.
    pub fn is_visible(&self) -> (r: bool)
        ensures
            r == (*self == CulledState::Visible || *self == CulledState::ByPass),
    {
        self.is_bypassed() || (*self == CulledState::Visible)
    }

    /// An entity counts as hidden if the camera does not see it or if it
    /// bypasses culling.
    pub fn is_hidden(&self) -> (r: bool)
        ensures
            r == (*self == CulledState::Hidden || *self == CulledState::ByPass),
    {
        self.is_bypassed() || (*self == CulledState::Hidden)
    }

    pub fn is_bypassed(&self) -> (r: bool)
        ensures
            r == (*self == CulledState::ByPass),
    {
        *self == CulledState::ByPass
    }

    /// What culling says of an entity: visible when no camera is registered
    /// or when the entity's rectangle meets the camera's, hidden otherwise.
    pub fn from_test(has_camera: bool, intersects: bool) -> (state: CulledState)
        ensures
            state == (if !has_camera || intersects {
                CulledState::Visible
            } else {
                CulledState::Hidden
            }),
    {
        if !has_camera {
            return CulledState::Visible;
        }
        if intersects {
            CulledState::Visible
        } else {
            CulledState::Hidden
        }
    }
}

} // verus!
