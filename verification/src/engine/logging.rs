//! Log lines.

pub mod logs;
pub mod logs_traits;
