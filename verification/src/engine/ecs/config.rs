//! The names of the schedules.

use vstd::prelude::*;

verus! {

/// The schedule that runs once a frame.
#[derive(Hash, Debug, Eq, PartialEq, Clone, Copy)]
pub struct EcsUpdateSchedule;

/// The schedule that runs at a fixed time step.
#[derive(Hash, Debug, Eq, PartialEq, Clone, Copy)]
pub struct EcsFixedUpdateSchedule;

/// The schedule that runs once a frame after the others.
#[derive(Hash, Debug, Eq, PartialEq, Clone, Copy)]
pub struct EcsLateUpdateSchedule;

} // verus!
