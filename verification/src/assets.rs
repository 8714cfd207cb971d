//! The asset pipeline.

pub mod asset_server;
pub mod commons;
pub mod executor;
pub mod processors;
pub mod storage;
pub mod storage_server;
pub mod uuid;

pub use crate::assets::executor::MonoThreadFifoExecutor;
