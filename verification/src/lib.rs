//! A small game engine's verified core.
//!
//! `assets` is the asset pipeline: handles, a single-worker FIFO scheduler,
//! a registry of storages keyed by asset kind, and the facade that ties them
//! together. `engine` holds the rules of the engine that are plain
//! arithmetic and bookkeeping: key states, texture reference counts, update
//! masks, paths.
//!
//! Everything here is sequential and deterministic. Reading files, drawing,
//! threads and locks belong to the program that embeds the library; it
//! drives the scheduler through the same transitions that the functions of
//! this crate are proved to take.

pub mod assets;
pub mod engine;
